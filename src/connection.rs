use vstd::prelude::*;

verus! {

/// The status word that marks a ready record.
pub open spec fn ready_word() -> Seq<char> {
    seq!['r', 'e', 'a', 'd', 'y']
}

/// The connection parameters that the worker announces once it is ready.
pub struct ApiInfo {
    pub port: u16,
    pub token: String,
    pub status: String,
}

impl Clone for ApiInfo {
    fn clone(&self) -> (r: Self)
        ensures
            r == *self,
    {
        ApiInfo { port: self.port, token: self.token.clone(), status: self.status.clone() }
    }
}

impl ApiInfo {
    /// Whether this descriptor carries the status word `ready`.
    pub fn is_ready(&self) -> (r: bool)
        ensures
            r == (self.status@ == ready_word()),
    {
        let word = String::from_str("ready");
        proof {
            reveal_strlit("ready");
            assert(word@ =~= ready_word());
        }
        self.status.eq(&word)
    }
}

/// The fields that one line of the worker's output decoded to, each absent when
/// the line did not carry it (or carried it with another JSON type).
/// A port is kept as read, before any range check.
pub struct RawRecord {
    pub status: Option<String>,
    pub port: Option<u64>,
    pub token: Option<String>,
}

/// The descriptor a decoded record stands for: all three fields present and the
/// port within the range of a `u16`.
pub open spec fn record_info(raw: RawRecord) -> Option<ApiInfo> {
    match (raw.status, raw.port, raw.token) {
        (Some(status), Some(port), Some(token)) => if port <= u16::MAX {
            Some(ApiInfo { port: port as u16, token, status })
        } else {
            None
        },
        _ => None,
    }
}

/// The descriptor a record completes the handshake with: a well-formed record
/// whose status is `ready`.
pub open spec fn ready_info(raw: RawRecord) -> Option<ApiInfo> {
    match record_info(raw) {
        Some(info) => if info.status@ == ready_word() {
            Some(info)
        } else {
            None
        },
        None => None,
    }
}

/// A record whose port does not fit in 16 bits, or that lacks its token, is no
/// descriptor: its line counts as diagnostic output, whatever its status.
pub proof fn lemma_malformed_record_rejected(raw: RawRecord)
    requires
        raw.token is None || (raw.port is Some && raw.port->Some_0 > u16::MAX),
    ensures
        record_info(raw) is None,
        ready_info(raw) is None,
{
}

impl RawRecord {
    /// Checks the record's shape: `None` unless status, port and token are all
    /// present and the port fits in 16 bits.
    pub fn decode(&self) -> (r: Option<ApiInfo>)
        ensures
            r == record_info(*self),
    {
        match (&self.status, self.port, &self.token) {
            (Some(status), Some(port), Some(token)) => {
                if port <= 65535 {
                    Some(ApiInfo { port: port as u16, token: token.clone(), status: status.clone() })
                } else {
                    None
                }
            },
            _ => None,
        }
    }

    /// The descriptor this record completes the handshake with, if any.
    pub fn ready(&self) -> (r: Option<ApiInfo>)
        ensures
            r == ready_info(*self),
    {
        match self.decode() {
            Some(info) => if info.is_ready() {
                Some(info)
            } else {
                None
            },
            None => None,
        }
    }
}

/// The shared cell holding the most recently negotiated descriptor.
pub struct ApiState {
    pub info: Option<ApiInfo>,
}

/// Why no descriptor could be handed out.
pub enum QueryError {
    /// The worker has not announced itself (or was stopped).
    NotAvailable,
    /// The bounded wait ran out after the given number of milliseconds.
    BackendStartupTimeout { elapsed_ms: u64 },
}

/// What a query of the cell yields.
pub open spec fn query_result(state: ApiState) -> Result<ApiInfo, QueryError> {
    match state.info {
        Some(info) => Ok(info),
        None => Err(QueryError::NotAvailable),
    }
}

impl ApiState {
    /// An empty cell, as at application launch.
    pub fn new() -> (r: ApiState)
        ensures
            r.info is None,
    {
        ApiState { info: None }
    }

    /// Publishes `info` as the current descriptor.
    pub fn set_info(&mut self, info: ApiInfo)
        ensures
            final(self).info == Some(info),
    {
        self.info = Some(info);
    }

    /// A copy of the current descriptor, if any.
    pub fn get_info(&self) -> (r: Option<ApiInfo>)
        ensures
            r == self.info,
    {
        match &self.info {
            Some(info) => Some(info.clone()),
            None => None,
        }
    }

    /// Empties the cell and hands back what it held.
    pub fn take_info(&mut self) -> (r: Option<ApiInfo>)
        ensures
            r == old(self).info,
            final(self).info is None,
    {
        self.info.take()
    }

    /// The current descriptor, or `NotAvailable` when none was published.
    pub fn query_connection_info(&self) -> (r: Result<ApiInfo, QueryError>)
        ensures
            r == query_result(*self),
    {
        match self.get_info() {
            Some(info) => Ok(info),
            None => Err(QueryError::NotAvailable),
        }
    }
}

} // verus!
