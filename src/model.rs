use vstd::prelude::*;

use vstd::utf8::encode_utf8;

use crate::text::{decimal, u64_text};

verus! {

/// A project that groups chat sessions.
#[derive(Debug, Clone)]
pub struct Project {
    pub project_id: String,
    pub name: String,
    pub description: Option<String>,
}

/// A chat session inside a project.
#[derive(Debug, Clone)]
pub struct Session {
    pub session_id: String,
    pub title: String,
    pub project_id: String,
}

/// One message of a session; `role` is `user`, `assistant` or `error`.
#[derive(Debug, Clone)]
pub struct Message {
    pub id: String,
    pub role: String,
    pub content: String,
}

/// The class of an application error.
#[derive(Debug, Clone, Copy, PartialEq, Eq, Structural)]
pub enum ErrorKind {
    Network,
    Database,
    Validation,
    NotFound,
    Internal,
}

/// An application error: its class and a message.
#[derive(Debug)]
pub struct AppError {
    pub message: String,
    pub kind: ErrorKind,
}

/// The label of each error class.
pub open spec fn kind_label(kind: ErrorKind) -> Seq<char> {
    match kind {
        ErrorKind::Network => "Network Error"@,
        ErrorKind::Database => "Database Error"@,
        ErrorKind::Validation => "Validation Error"@,
        ErrorKind::NotFound => "Not Found"@,
        ErrorKind::Internal => "Internal Error"@,
    }
}

impl AppError {
    /// The label of this error's class.
    pub fn kind_str(&self) -> (r: &'static str)
        ensures
            r@ == kind_label(self.kind),
    {
        match self.kind {
            ErrorKind::Network => "Network Error",
            ErrorKind::Database => "Database Error",
            ErrorKind::Validation => "Validation Error",
            ErrorKind::NotFound => "Not Found",
            ErrorKind::Internal => "Internal Error",
        }
    }

    /// The error as text: its label, a colon and its message.
    pub fn to_string(&self) -> (r: String)
        ensures
            r@ == kind_label(self.kind) + ": "@ + self.message@,
    {
        String::from_str(self.kind_str()).concat(": ").concat(self.message.as_str())
    }
}

/// Whether `c` has the Unicode `White_Space` property.
pub open spec fn is_white_space(c: char) -> bool {
    let u = c as u32;
    (0x9 <= u <= 0xd) || u == 0x20 || u == 0x85 || u == 0xa0 || u == 0x1680 || (0x2000 <= u
        <= 0x200a) || u == 0x2028 || u == 0x2029 || u == 0x202f || u == 0x205f || u == 0x3000
}

/// `s` without its leading white space.
pub open spec fn trim_front(s: Seq<char>) -> Seq<char>
    decreases s.len(),
{
    if s.len() > 0 && is_white_space(s[0]) {
        trim_front(s.drop_first())
    } else {
        s
    }
}

/// `s` without its trailing white space.
pub open spec fn trim_back(s: Seq<char>) -> Seq<char>
    decreases s.len(),
{
    if s.len() > 0 && is_white_space(s.last()) {
        trim_back(s.drop_last())
    } else {
        s
    }
}

/// `s` without leading and trailing white space.
pub open spec fn trimmed(s: Seq<char>) -> Seq<char> {
    trim_back(trim_front(s))
}

/// Relies on `str::trim`: the slice without leading and trailing characters
/// that have the `White_Space` property.
#[verifier::external_body]
fn trim_str(s: &str) -> (r: &str)
    ensures
        r@ == trimmed(s@),
{
    s.trim()
}

/// The error a field check reports, if any: an input that is empty once trimmed,
/// or whose trimmed UTF-8 encoding is shorter than `min_length` bytes.
pub open spec fn validation_message(input: Seq<char>, field_name: Seq<char>, min_length: nat) -> Option<
    Seq<char>,
> {
    if trimmed(input).len() == 0 {
        Some(field_name + " cannot be empty"@)
    } else if encode_utf8(trimmed(input)).len() < min_length {
        Some(field_name + " must be at least "@ + decimal(min_length) + " characters long"@)
    } else {
        None
    }
}

/// Checks a text field: it must not be empty once trimmed, and its trimmed UTF-8
/// encoding must be at least `min_length` bytes long.
pub fn validate_string(input: &str, field_name: &str, min_length: usize) -> (r: Result<(), AppError>)
    ensures
        match validation_message(input@, field_name@, min_length as nat) {
            None => r is Ok,
            Some(m) => r is Err && r->Err_0.kind == ErrorKind::Validation && r->Err_0.message@ == m,
        },
{
    let t = trim_str(input);
    if t.is_empty() {
        return Err(
            AppError {
                message: String::from_str(field_name).concat(" cannot be empty"),
                kind: ErrorKind::Validation,
            },
        );
    }
    if t.as_bytes().len() < min_length {
        let n = u64_text(min_length as u64);
        assert((min_length as u64) as nat == min_length as nat);
        return Err(
            AppError {
                message: String::from_str(field_name).concat(" must be at least ").concat(
                    n.as_str(),
                ).concat(" characters long"),
                kind: ErrorKind::Validation,
            },
        );
    }
    Ok(())
}

/// Relies on `str::starts_with` with a `&str` pattern: whether `prefix` is a
/// prefix of `s`.
#[verifier::external_body]
fn has_prefix(s: &str, prefix: &str) -> (r: bool)
    ensures
        r == prefix@.is_prefix_of(s@),
{
    s.starts_with(prefix)
}

/// Why an API address was refused.
pub open spec fn api_url_error(url: Seq<char>) -> Option<Seq<char>> {
    match validation_message(url, "API URL"@, 1) {
        Some(m) => Some(kind_label(ErrorKind::Validation) + ": "@ + m),
        None => if "http://"@.is_prefix_of(url) || "https://"@.is_prefix_of(url) {
            None
        } else {
            Some("API URL must start with http:// or https://"@)
        },
    }
}

/// Checks a new API address before it is tried: not blank, and starting with
/// `http://` or `https://`. A blank address is reported as the text of its
/// validation error, class label included.
pub fn check_api_url(url: &str) -> (r: Result<(), String>)
    ensures
        match api_url_error(url@) {
            None => r is Ok,
            Some(m) => r is Err && r->Err_0@ == m,
        },
{
    if let Err(e) = validate_string(url, "API URL", 1) {
        return Err(e.to_string());
    }
    if !has_prefix(url, "http://") && !has_prefix(url, "https://") {
        return Err(String::from_str("API URL must start with http:// or https://"));
    }
    Ok(())
}

} // verus!
