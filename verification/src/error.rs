//! Errors reported by the library.
use vstd::prelude::*;
use vstd::string::*;

use crate::types::{xmpp_error_type_t, XMPP_EINT, XMPP_EINVOP, XMPP_EMEM, XMPP_EOK};

verus! {

/// Failure reported by a call into the C library.
#[derive(Debug, Clone, Copy, PartialEq, Eq, Structural)]
pub enum Error {
    MemoryError,
    InvalidOperation,
    InternalError,
}

/// `code` is one of the C library's error codes.
pub open spec fn is_error_code(code: i32) -> bool {
    code == XMPP_EMEM || code == XMPP_EINVOP || code == XMPP_EINT
}

/// `code` is a status code the C library returns: success or one of its error codes.
pub open spec fn is_status_code(code: i32) -> bool {
    code == XMPP_EOK || is_error_code(code)
}

/// The error an error code stands for.
pub open spec fn error_of_code(code: i32) -> Error {
    if code == XMPP_EMEM {
        Error::MemoryError
    } else if code == XMPP_EINVOP {
        Error::InvalidOperation
    } else {
        Error::InternalError
    }
}

/// The outcome a status code stands for.
pub open spec fn result_of_code(code: i32) -> Result<(), Error> {
    if code == XMPP_EOK {
        Ok(())
    } else {
        Err(error_of_code(code))
    }
}

/// The message of an error.
pub open spec fn error_text(e: Error) -> Seq<char> {
    match e {
        Error::MemoryError => "Memory error"@,
        Error::InvalidOperation => "Invalid operation"@,
        Error::InternalError => "Internal error"@,
    }
}

impl Error {
    /// The C library's code for this error.
    pub open spec fn code_spec(self) -> i32 {
        match self {
            Error::MemoryError => XMPP_EMEM,
            Error::InvalidOperation => XMPP_EINVOP,
            Error::InternalError => XMPP_EINT,
        }
    }

    /// The error a C library error code stands for; the code must be one of its error codes.
    pub fn from_code(code: i32) -> (r: Error)
        requires
            is_error_code(code),
        ensures
            r == error_of_code(code),
    {
        if code == XMPP_EMEM {
            Error::MemoryError
        } else if code == XMPP_EINVOP {
            Error::InvalidOperation
        } else {
            Error::InternalError
        }
    }

    /// The message of this error.
    pub fn to_string(&self) -> (r: String)
        ensures
            r@ == error_text(*self),
    {
        match self {
            Error::MemoryError => String::from_str("Memory error"),
            Error::InvalidOperation => String::from_str("Invalid operation"),
            Error::InternalError => String::from_str("Internal error"),
        }
    }
}

/// Turns a status code returned by the C library into a `Result`.
pub fn into_result(code: i32) -> (r: Result<(), Error>)
    requires
        is_status_code(code),
    ensures
        r == result_of_code(code),
{
    if code == XMPP_EOK {
        Ok(())
    } else {
        Err(Error::from_code(code))
    }
}

/// Every error has its own code, and that code maps back to the error; success has a code of
/// its own that maps to `Ok`.
pub proof fn law_error_code_round_trip(e: Error)
    ensures
        is_error_code(e.code_spec()),
        error_of_code(e.code_spec()) == e,
        result_of_code(e.code_spec()) == Err::<(), Error>(e),
        result_of_code(XMPP_EOK) == Ok::<(), Error>(()),
{
}

/// Declares std's UTF-8 decoding error so that it can be carried in errors of this library.
#[verifier::external_type_specification]
#[verifier::external_body]
pub struct ExUtf8Error(core::str::Utf8Error);

/// Failure to render a stanza as text.
#[derive(Debug, Clone, Copy, PartialEq, Eq)]
pub enum ToTextError {
    StropheError(Error),
    Utf8Error(core::str::Utf8Error),
}

/// Text of a UTF-8 decoding error, as std's `Display` renders it.
pub uninterp spec fn utf8_error_display(e: core::str::Utf8Error) -> Seq<char>;

/// Text of a UTF-8 decoding error, as std's `Display` renders it.
///
/// Trusted: calls `<Utf8Error as Display>::fmt` through `format!`. The text depends on the error
/// value alone and is named `utf8_error_display`; nothing more is stated of it.
#[verifier::external_body]
fn utf8_error_text(e: &core::str::Utf8Error) -> (r: String)
    ensures
        r@ == utf8_error_display(*e),
{
    format!("{}", e)
}

/// The message of a UTF-8 decoding error, given the text std renders for it.
pub fn utf8_error_message(text: &str) -> (r: String)
    ensures
        r@ == "UTF-8 error: "@ + text@,
{
    let mut out = String::from_str("UTF-8 error: ");
    out.append(text);
    out
}

impl ToTextError {
    /// The message of this error: the message of the inner error behind a prefix that names its
    /// kind.
    pub fn to_string(&self) -> (r: String)
        ensures
            match self {
                ToTextError::StropheError(e) => r@ == "Strophe error: "@ + error_text(*e),
                ToTextError::Utf8Error(u) => r@ == "UTF-8 error: "@ + utf8_error_display(*u),
            },
    {
        match self {
            ToTextError::StropheError(e) => {
                let mut out = String::from_str("Strophe error: ");
                let text = e.to_string();
                out.append(text.as_str());
                out
            },
            ToTextError::Utf8Error(e) => {
                let text = utf8_error_text(e);
                utf8_error_message(text.as_str())
            },
        }
    }
}

impl From<Error> for ToTextError {
    fn from(s: Error) -> (r: ToTextError) {
        ToTextError::StropheError(s)
    }
}

impl vstd::std_specs::convert::FromSpecImpl<Error> for ToTextError {
    open spec fn obeys_from_spec() -> bool {
        true
    }

    open spec fn from_spec(v: Error) -> ToTextError {
        ToTextError::StropheError(v)
    }
}

impl From<core::str::Utf8Error> for ToTextError {
    fn from(s: core::str::Utf8Error) -> (r: ToTextError) {
        ToTextError::Utf8Error(s)
    }
}

impl vstd::std_specs::convert::FromSpecImpl<core::str::Utf8Error> for ToTextError {
    open spec fn obeys_from_spec() -> bool {
        true
    }

    open spec fn from_spec(v: core::str::Utf8Error) -> ToTextError {
        ToTextError::Utf8Error(v)
    }
}

/// The text naming a stream error condition.
pub open spec fn error_type_text(typ: xmpp_error_type_t) -> Seq<char> {
    match typ {
        xmpp_error_type_t::XMPP_SE_BAD_FORMAT => "Bad format"@,
        xmpp_error_type_t::XMPP_SE_BAD_NS_PREFIX => "Bad namespace prefix"@,
        xmpp_error_type_t::XMPP_SE_CONFLICT => "Conflict"@,
        xmpp_error_type_t::XMPP_SE_CONN_TIMEOUT => "Connection timeout"@,
        xmpp_error_type_t::XMPP_SE_HOST_GONE => "Gone"@,
        xmpp_error_type_t::XMPP_SE_HOST_UNKNOWN => "Host unknown"@,
        xmpp_error_type_t::XMPP_SE_IMPROPER_ADDR => "Improper address"@,
        xmpp_error_type_t::XMPP_SE_INTERNAL_SERVER_ERROR => "Internal server error"@,
        xmpp_error_type_t::XMPP_SE_INVALID_FROM => "Invalid from"@,
        xmpp_error_type_t::XMPP_SE_INVALID_ID => "Invalid id"@,
        xmpp_error_type_t::XMPP_SE_INVALID_NS => "Invalid namespace"@,
        xmpp_error_type_t::XMPP_SE_INVALID_XML => "Invalid XML"@,
        xmpp_error_type_t::XMPP_SE_NOT_AUTHORIZED => "Not authorized"@,
        xmpp_error_type_t::XMPP_SE_POLICY_VIOLATION => "Policy violation"@,
        xmpp_error_type_t::XMPP_SE_REMOTE_CONN_FAILED => "Connection failed"@,
        xmpp_error_type_t::XMPP_SE_RESOURCE_CONSTRAINT => "Resource constraint"@,
        xmpp_error_type_t::XMPP_SE_RESTRICTED_XML => "Restricted XML"@,
        xmpp_error_type_t::XMPP_SE_SEE_OTHER_HOST => "See other host"@,
        xmpp_error_type_t::XMPP_SE_SYSTEM_SHUTDOWN => "System shutdown"@,
        xmpp_error_type_t::XMPP_SE_UNDEFINED_CONDITION => "Undefined condition"@,
        xmpp_error_type_t::XMPP_SE_UNSUPPORTED_ENCODING => "Unsupported encoding"@,
        xmpp_error_type_t::XMPP_SE_UNSUPPORTED_STANZA_TYPE => "Unsupported stanza type"@,
        xmpp_error_type_t::XMPP_SE_UNSUPPORTED_VERSION => "Unsupported version"@,
        xmpp_error_type_t::XMPP_SE_XML_NOT_WELL_FORMED => "XML is not well formed"@,
    }
}

/// The text naming a stream error condition.
pub fn error_type_to_str(typ: xmpp_error_type_t) -> (r: &'static str)
    ensures
        r@ == error_type_text(typ),
{
    match typ {
        xmpp_error_type_t::XMPP_SE_BAD_FORMAT => "Bad format",
        xmpp_error_type_t::XMPP_SE_BAD_NS_PREFIX => "Bad namespace prefix",
        xmpp_error_type_t::XMPP_SE_CONFLICT => "Conflict",
        xmpp_error_type_t::XMPP_SE_CONN_TIMEOUT => "Connection timeout",
        xmpp_error_type_t::XMPP_SE_HOST_GONE => "Gone",
        xmpp_error_type_t::XMPP_SE_HOST_UNKNOWN => "Host unknown",
        xmpp_error_type_t::XMPP_SE_IMPROPER_ADDR => "Improper address",
        xmpp_error_type_t::XMPP_SE_INTERNAL_SERVER_ERROR => "Internal server error",
        xmpp_error_type_t::XMPP_SE_INVALID_FROM => "Invalid from",
        xmpp_error_type_t::XMPP_SE_INVALID_ID => "Invalid id",
        xmpp_error_type_t::XMPP_SE_INVALID_NS => "Invalid namespace",
        xmpp_error_type_t::XMPP_SE_INVALID_XML => "Invalid XML",
        xmpp_error_type_t::XMPP_SE_NOT_AUTHORIZED => "Not authorized",
        xmpp_error_type_t::XMPP_SE_POLICY_VIOLATION => "Policy violation",
        xmpp_error_type_t::XMPP_SE_REMOTE_CONN_FAILED => "Connection failed",
        xmpp_error_type_t::XMPP_SE_RESOURCE_CONSTRAINT => "Resource constraint",
        xmpp_error_type_t::XMPP_SE_RESTRICTED_XML => "Restricted XML",
        xmpp_error_type_t::XMPP_SE_SEE_OTHER_HOST => "See other host",
        xmpp_error_type_t::XMPP_SE_SYSTEM_SHUTDOWN => "System shutdown",
        xmpp_error_type_t::XMPP_SE_UNDEFINED_CONDITION => "Undefined condition",
        xmpp_error_type_t::XMPP_SE_UNSUPPORTED_ENCODING => "Unsupported encoding",
        xmpp_error_type_t::XMPP_SE_UNSUPPORTED_STANZA_TYPE => "Unsupported stanza type",
        xmpp_error_type_t::XMPP_SE_UNSUPPORTED_VERSION => "Unsupported version",
        xmpp_error_type_t::XMPP_SE_XML_NOT_WELL_FORMED => "XML is not well formed",
    }
}

/// The message of a stream error: the text naming its condition, followed by `": "` and the
/// server's text when there is one.
pub open spec fn stream_error_text(typ: xmpp_error_type_t, text: Option<Seq<char>>) -> Seq<char> {
    match text {
        None => error_type_text(typ),
        Some(t) => error_type_text(typ) + ": "@ + t,
    }
}

fn stream_error_message(typ: xmpp_error_type_t, text: Option<&str>) -> (r: String)
    ensures
        r@ == stream_error_text(
            typ,
            match text {
                None => None,
                Some(t) => Some(t@),
            },
        ),
{
    let mut out = String::from_str(error_type_to_str(typ));
    match text {
        None => {},
        Some(t) => {
            out.append(": ");
            out.append(t);
        },
    }
    out
}

/// Error of the stream: the error condition, the server's optional text about it and the error
/// stanza the server sent, whose data is already in `typ` and `text`.
#[derive(Debug, Clone, Copy)]
pub struct StreamError<'t, S> {
    pub typ: xmpp_error_type_t,
    pub text: Option<&'t str>,
    pub stanza: S,
}

impl<'t, S> StreamError<'t, S> {
    /// An owned copy of this error that keeps `stanza`, the copy of its error stanza.
    pub fn to_owned<O>(&self, stanza: O) -> (r: OwnedStreamError<O>)
        ensures
            r.typ == self.typ,
            match self.text {
                None => r.text is None,
                Some(t) => r.text matches Some(o) && o@ == t@,
            },
            r.stanza == stanza,
    {
        OwnedStreamError {
            typ: self.typ,
            text: match self.text {
                None => None,
                Some(t) => Some(t.to_owned()),
            },
            stanza,
        }
    }

    /// The message of this error.
    pub fn to_string(&self) -> (r: String)
        ensures
            r@ == stream_error_text(
                self.typ,
                match self.text {
                    None => None,
                    Some(t) => Some(t@),
                },
            ),
    {
        stream_error_message(self.typ, self.text)
    }
}

/// Owned version of [`StreamError`], with its own copy of the error stanza.
#[derive(Debug, Clone)]
pub struct OwnedStreamError<S> {
    pub typ: xmpp_error_type_t,
    pub text: Option<String>,
    pub stanza: S,
}

impl<S> OwnedStreamError<S> {
    /// The message of this error.
    pub fn to_string(&self) -> (r: String)
        ensures
            r@ == stream_error_text(
                self.typ,
                match self.text {
                    None => None,
                    Some(t) => Some(t@),
                },
            ),
    {
        match &self.text {
            None => stream_error_message(self.typ, None),
            Some(t) => stream_error_message(self.typ, Some(t.as_str())),
        }
    }
}

} // verus!
