//! Plain data types of the C library interface: enumerations, error codes and flag bits.
use vstd::prelude::*;

verus! {

/// Success code returned by the C library.
pub const XMPP_EOK: i32 = 0;
/// Error code: memory allocation failed.
pub const XMPP_EMEM: i32 = -1;
/// Error code: invalid operation.
pub const XMPP_EINVOP: i32 = -2;
/// Error code: internal failure.
pub const XMPP_EINT: i32 = -3;

/// Connection flag bit: never use TLS.
pub const XMPP_CONN_FLAG_DISABLE_TLS: i64 = 1;
/// Connection flag bit: refuse to connect without TLS.
pub const XMPP_CONN_FLAG_MANDATORY_TLS: i64 = 2;
/// Connection flag bit: use legacy SSL.
pub const XMPP_CONN_FLAG_LEGACY_SSL: i64 = 4;
/// Connection flag bit: trust the server certificate.
pub const XMPP_CONN_FLAG_TRUST_TLS: i64 = 8;
/// Connection flag bit: allow legacy authentication.
pub const XMPP_CONN_FLAG_LEGACY_AUTH: i64 = 16;
/// Connection flag bit: disable stream management.
pub const XMPP_CONN_FLAG_DISABLE_SM: i64 = 32;
/// Connection flag bit: enable stream compression.
pub const XMPP_CONN_FLAG_ENABLE_COMPRESSION: i64 = 64;
/// Connection flag bit: do not reset the compression state after each stanza.
pub const XMPP_CONN_FLAG_COMPRESSION_DONT_RESET: i64 = 128;

/// Log levels of the C library.
#[allow(non_camel_case_types)]
#[derive(Debug, Clone, Copy, PartialEq, Eq, Hash, Structural)]
pub enum xmpp_log_level_t {
    XMPP_LEVEL_DEBUG,
    XMPP_LEVEL_INFO,
    XMPP_LEVEL_WARN,
    XMPP_LEVEL_ERROR,
}

impl xmpp_log_level_t {
    /// The numeric value of this variant in the C interface.
    pub open spec fn raw_spec(self) -> u32 {
        match self {
            xmpp_log_level_t::XMPP_LEVEL_DEBUG => 0u32,
            xmpp_log_level_t::XMPP_LEVEL_INFO => 1u32,
            xmpp_log_level_t::XMPP_LEVEL_WARN => 2u32,
            xmpp_log_level_t::XMPP_LEVEL_ERROR => 3u32,
        }
    }

    /// The numeric value of this variant in the C interface.
    #[verifier::when_used_as_spec(raw_spec)]
    pub fn to_raw(self) -> (r: u32)
        ensures
            r == self.raw_spec(),
            self == xmpp_log_level_t::XMPP_LEVEL_DEBUG ==> r == 0u32,
            self == xmpp_log_level_t::XMPP_LEVEL_INFO ==> r == 1u32,
            self == xmpp_log_level_t::XMPP_LEVEL_WARN ==> r == 2u32,
            self == xmpp_log_level_t::XMPP_LEVEL_ERROR ==> r == 3u32,
    {
        match self {
            xmpp_log_level_t::XMPP_LEVEL_DEBUG => 0,
            xmpp_log_level_t::XMPP_LEVEL_INFO => 1,
            xmpp_log_level_t::XMPP_LEVEL_WARN => 2,
            xmpp_log_level_t::XMPP_LEVEL_ERROR => 3,
        }
    }

    /// The variant with the given numeric value, if there is one.
    pub fn from_raw(raw: u32) -> (r: Option<xmpp_log_level_t>)
        ensures
            r matches Some(v) ==> v.raw_spec() == raw,
            r is None <==> raw >= 4,
            raw == 0u32 ==> r == Some(xmpp_log_level_t::XMPP_LEVEL_DEBUG),
            raw == 1u32 ==> r == Some(xmpp_log_level_t::XMPP_LEVEL_INFO),
            raw == 2u32 ==> r == Some(xmpp_log_level_t::XMPP_LEVEL_WARN),
            raw == 3u32 ==> r == Some(xmpp_log_level_t::XMPP_LEVEL_ERROR),
    {
        match raw {
            0 => Some(xmpp_log_level_t::XMPP_LEVEL_DEBUG),
            1 => Some(xmpp_log_level_t::XMPP_LEVEL_INFO),
            2 => Some(xmpp_log_level_t::XMPP_LEVEL_WARN),
            3 => Some(xmpp_log_level_t::XMPP_LEVEL_ERROR),
            _ => None,
        }
    }
}

/// The C interface numbers of the log levels are those of strophe.h: XMPP_LEVEL_DEBUG = 0, XMPP_LEVEL_INFO = 1, XMPP_LEVEL_WARN = 2, XMPP_LEVEL_ERROR = 3. No two
/// variants share a number.
pub proof fn law_log_level_numbers(a: xmpp_log_level_t, b: xmpp_log_level_t)
    ensures
        xmpp_log_level_t::XMPP_LEVEL_DEBUG.raw_spec() == 0u32,
        xmpp_log_level_t::XMPP_LEVEL_INFO.raw_spec() == 1u32,
        xmpp_log_level_t::XMPP_LEVEL_WARN.raw_spec() == 2u32,
        xmpp_log_level_t::XMPP_LEVEL_ERROR.raw_spec() == 3u32,
        a.raw_spec() == b.raw_spec() ==> a == b,
{
}

/// Kind of a connection.
#[allow(non_camel_case_types)]
#[derive(Debug, Clone, Copy, PartialEq, Eq, Hash, Structural)]
pub enum xmpp_conn_type_t {
    XMPP_UNKNOWN,
    XMPP_CLIENT,
    XMPP_COMPONENT,
}

impl xmpp_conn_type_t {
    /// The numeric value of this variant in the C interface.
    pub open spec fn raw_spec(self) -> u32 {
        match self {
            xmpp_conn_type_t::XMPP_UNKNOWN => 0u32,
            xmpp_conn_type_t::XMPP_CLIENT => 1u32,
            xmpp_conn_type_t::XMPP_COMPONENT => 2u32,
        }
    }

    /// The numeric value of this variant in the C interface.
    #[verifier::when_used_as_spec(raw_spec)]
    pub fn to_raw(self) -> (r: u32)
        ensures
            r == self.raw_spec(),
            self == xmpp_conn_type_t::XMPP_UNKNOWN ==> r == 0u32,
            self == xmpp_conn_type_t::XMPP_CLIENT ==> r == 1u32,
            self == xmpp_conn_type_t::XMPP_COMPONENT ==> r == 2u32,
    {
        match self {
            xmpp_conn_type_t::XMPP_UNKNOWN => 0,
            xmpp_conn_type_t::XMPP_CLIENT => 1,
            xmpp_conn_type_t::XMPP_COMPONENT => 2,
        }
    }

    /// The variant with the given numeric value, if there is one.
    pub fn from_raw(raw: u32) -> (r: Option<xmpp_conn_type_t>)
        ensures
            r matches Some(v) ==> v.raw_spec() == raw,
            r is None <==> raw >= 3,
            raw == 0u32 ==> r == Some(xmpp_conn_type_t::XMPP_UNKNOWN),
            raw == 1u32 ==> r == Some(xmpp_conn_type_t::XMPP_CLIENT),
            raw == 2u32 ==> r == Some(xmpp_conn_type_t::XMPP_COMPONENT),
    {
        match raw {
            0 => Some(xmpp_conn_type_t::XMPP_UNKNOWN),
            1 => Some(xmpp_conn_type_t::XMPP_CLIENT),
            2 => Some(xmpp_conn_type_t::XMPP_COMPONENT),
            _ => None,
        }
    }
}

/// The C interface numbers of the connection kinds are those of strophe.h: XMPP_UNKNOWN = 0, XMPP_CLIENT = 1, XMPP_COMPONENT = 2. No two
/// variants share a number.
pub proof fn law_conn_type_numbers(a: xmpp_conn_type_t, b: xmpp_conn_type_t)
    ensures
        xmpp_conn_type_t::XMPP_UNKNOWN.raw_spec() == 0u32,
        xmpp_conn_type_t::XMPP_CLIENT.raw_spec() == 1u32,
        xmpp_conn_type_t::XMPP_COMPONENT.raw_spec() == 2u32,
        a.raw_spec() == b.raw_spec() ==> a == b,
{
}

/// Events reported to a connection handler.
#[allow(non_camel_case_types)]
#[derive(Debug, Clone, Copy, PartialEq, Eq, Hash, Structural)]
pub enum xmpp_conn_event_t {
    XMPP_CONN_CONNECT,
    XMPP_CONN_RAW_CONNECT,
    XMPP_CONN_DISCONNECT,
    XMPP_CONN_FAIL,
}

impl xmpp_conn_event_t {
    /// The numeric value of this variant in the C interface.
    pub open spec fn raw_spec(self) -> u32 {
        match self {
            xmpp_conn_event_t::XMPP_CONN_CONNECT => 0u32,
            xmpp_conn_event_t::XMPP_CONN_RAW_CONNECT => 1u32,
            xmpp_conn_event_t::XMPP_CONN_DISCONNECT => 2u32,
            xmpp_conn_event_t::XMPP_CONN_FAIL => 3u32,
        }
    }

    /// The numeric value of this variant in the C interface.
    #[verifier::when_used_as_spec(raw_spec)]
    pub fn to_raw(self) -> (r: u32)
        ensures
            r == self.raw_spec(),
            self == xmpp_conn_event_t::XMPP_CONN_CONNECT ==> r == 0u32,
            self == xmpp_conn_event_t::XMPP_CONN_RAW_CONNECT ==> r == 1u32,
            self == xmpp_conn_event_t::XMPP_CONN_DISCONNECT ==> r == 2u32,
            self == xmpp_conn_event_t::XMPP_CONN_FAIL ==> r == 3u32,
    {
        match self {
            xmpp_conn_event_t::XMPP_CONN_CONNECT => 0,
            xmpp_conn_event_t::XMPP_CONN_RAW_CONNECT => 1,
            xmpp_conn_event_t::XMPP_CONN_DISCONNECT => 2,
            xmpp_conn_event_t::XMPP_CONN_FAIL => 3,
        }
    }

    /// The variant with the given numeric value, if there is one.
    pub fn from_raw(raw: u32) -> (r: Option<xmpp_conn_event_t>)
        ensures
            r matches Some(v) ==> v.raw_spec() == raw,
            r is None <==> raw >= 4,
            raw == 0u32 ==> r == Some(xmpp_conn_event_t::XMPP_CONN_CONNECT),
            raw == 1u32 ==> r == Some(xmpp_conn_event_t::XMPP_CONN_RAW_CONNECT),
            raw == 2u32 ==> r == Some(xmpp_conn_event_t::XMPP_CONN_DISCONNECT),
            raw == 3u32 ==> r == Some(xmpp_conn_event_t::XMPP_CONN_FAIL),
    {
        match raw {
            0 => Some(xmpp_conn_event_t::XMPP_CONN_CONNECT),
            1 => Some(xmpp_conn_event_t::XMPP_CONN_RAW_CONNECT),
            2 => Some(xmpp_conn_event_t::XMPP_CONN_DISCONNECT),
            3 => Some(xmpp_conn_event_t::XMPP_CONN_FAIL),
            _ => None,
        }
    }
}

/// The C interface numbers of the connection events are those of strophe.h: XMPP_CONN_CONNECT = 0, XMPP_CONN_RAW_CONNECT = 1, XMPP_CONN_DISCONNECT = 2, XMPP_CONN_FAIL = 3. No two
/// variants share a number.
pub proof fn law_conn_event_numbers(a: xmpp_conn_event_t, b: xmpp_conn_event_t)
    ensures
        xmpp_conn_event_t::XMPP_CONN_CONNECT.raw_spec() == 0u32,
        xmpp_conn_event_t::XMPP_CONN_RAW_CONNECT.raw_spec() == 1u32,
        xmpp_conn_event_t::XMPP_CONN_DISCONNECT.raw_spec() == 2u32,
        xmpp_conn_event_t::XMPP_CONN_FAIL.raw_spec() == 3u32,
        a.raw_spec() == b.raw_spec() ==> a == b,
{
}

/// Stream error conditions.
#[allow(non_camel_case_types)]
#[derive(Debug, Clone, Copy, PartialEq, Eq, Hash, Structural)]
pub enum xmpp_error_type_t {
    XMPP_SE_BAD_FORMAT,
    XMPP_SE_BAD_NS_PREFIX,
    XMPP_SE_CONFLICT,
    XMPP_SE_CONN_TIMEOUT,
    XMPP_SE_HOST_GONE,
    XMPP_SE_HOST_UNKNOWN,
    XMPP_SE_IMPROPER_ADDR,
    XMPP_SE_INTERNAL_SERVER_ERROR,
    XMPP_SE_INVALID_FROM,
    XMPP_SE_INVALID_ID,
    XMPP_SE_INVALID_NS,
    XMPP_SE_INVALID_XML,
    XMPP_SE_NOT_AUTHORIZED,
    XMPP_SE_POLICY_VIOLATION,
    XMPP_SE_REMOTE_CONN_FAILED,
    XMPP_SE_RESOURCE_CONSTRAINT,
    XMPP_SE_RESTRICTED_XML,
    XMPP_SE_SEE_OTHER_HOST,
    XMPP_SE_SYSTEM_SHUTDOWN,
    XMPP_SE_UNDEFINED_CONDITION,
    XMPP_SE_UNSUPPORTED_ENCODING,
    XMPP_SE_UNSUPPORTED_STANZA_TYPE,
    XMPP_SE_UNSUPPORTED_VERSION,
    XMPP_SE_XML_NOT_WELL_FORMED,
}

impl xmpp_error_type_t {
    /// The numeric value of this variant in the C interface.
    pub open spec fn raw_spec(self) -> u32 {
        match self {
            xmpp_error_type_t::XMPP_SE_BAD_FORMAT => 0u32,
            xmpp_error_type_t::XMPP_SE_BAD_NS_PREFIX => 1u32,
            xmpp_error_type_t::XMPP_SE_CONFLICT => 2u32,
            xmpp_error_type_t::XMPP_SE_CONN_TIMEOUT => 3u32,
            xmpp_error_type_t::XMPP_SE_HOST_GONE => 4u32,
            xmpp_error_type_t::XMPP_SE_HOST_UNKNOWN => 5u32,
            xmpp_error_type_t::XMPP_SE_IMPROPER_ADDR => 6u32,
            xmpp_error_type_t::XMPP_SE_INTERNAL_SERVER_ERROR => 7u32,
            xmpp_error_type_t::XMPP_SE_INVALID_FROM => 8u32,
            xmpp_error_type_t::XMPP_SE_INVALID_ID => 9u32,
            xmpp_error_type_t::XMPP_SE_INVALID_NS => 10u32,
            xmpp_error_type_t::XMPP_SE_INVALID_XML => 11u32,
            xmpp_error_type_t::XMPP_SE_NOT_AUTHORIZED => 12u32,
            xmpp_error_type_t::XMPP_SE_POLICY_VIOLATION => 13u32,
            xmpp_error_type_t::XMPP_SE_REMOTE_CONN_FAILED => 14u32,
            xmpp_error_type_t::XMPP_SE_RESOURCE_CONSTRAINT => 15u32,
            xmpp_error_type_t::XMPP_SE_RESTRICTED_XML => 16u32,
            xmpp_error_type_t::XMPP_SE_SEE_OTHER_HOST => 17u32,
            xmpp_error_type_t::XMPP_SE_SYSTEM_SHUTDOWN => 18u32,
            xmpp_error_type_t::XMPP_SE_UNDEFINED_CONDITION => 19u32,
            xmpp_error_type_t::XMPP_SE_UNSUPPORTED_ENCODING => 20u32,
            xmpp_error_type_t::XMPP_SE_UNSUPPORTED_STANZA_TYPE => 21u32,
            xmpp_error_type_t::XMPP_SE_UNSUPPORTED_VERSION => 22u32,
            xmpp_error_type_t::XMPP_SE_XML_NOT_WELL_FORMED => 23u32,
        }
    }

    /// The numeric value of this variant in the C interface.
    #[verifier::when_used_as_spec(raw_spec)]
    pub fn to_raw(self) -> (r: u32)
        ensures
            r == self.raw_spec(),
            self == xmpp_error_type_t::XMPP_SE_BAD_FORMAT ==> r == 0u32,
            self == xmpp_error_type_t::XMPP_SE_BAD_NS_PREFIX ==> r == 1u32,
            self == xmpp_error_type_t::XMPP_SE_CONFLICT ==> r == 2u32,
            self == xmpp_error_type_t::XMPP_SE_CONN_TIMEOUT ==> r == 3u32,
            self == xmpp_error_type_t::XMPP_SE_HOST_GONE ==> r == 4u32,
            self == xmpp_error_type_t::XMPP_SE_HOST_UNKNOWN ==> r == 5u32,
            self == xmpp_error_type_t::XMPP_SE_IMPROPER_ADDR ==> r == 6u32,
            self == xmpp_error_type_t::XMPP_SE_INTERNAL_SERVER_ERROR ==> r == 7u32,
            self == xmpp_error_type_t::XMPP_SE_INVALID_FROM ==> r == 8u32,
            self == xmpp_error_type_t::XMPP_SE_INVALID_ID ==> r == 9u32,
            self == xmpp_error_type_t::XMPP_SE_INVALID_NS ==> r == 10u32,
            self == xmpp_error_type_t::XMPP_SE_INVALID_XML ==> r == 11u32,
            self == xmpp_error_type_t::XMPP_SE_NOT_AUTHORIZED ==> r == 12u32,
            self == xmpp_error_type_t::XMPP_SE_POLICY_VIOLATION ==> r == 13u32,
            self == xmpp_error_type_t::XMPP_SE_REMOTE_CONN_FAILED ==> r == 14u32,
            self == xmpp_error_type_t::XMPP_SE_RESOURCE_CONSTRAINT ==> r == 15u32,
            self == xmpp_error_type_t::XMPP_SE_RESTRICTED_XML ==> r == 16u32,
            self == xmpp_error_type_t::XMPP_SE_SEE_OTHER_HOST ==> r == 17u32,
            self == xmpp_error_type_t::XMPP_SE_SYSTEM_SHUTDOWN ==> r == 18u32,
            self == xmpp_error_type_t::XMPP_SE_UNDEFINED_CONDITION ==> r == 19u32,
            self == xmpp_error_type_t::XMPP_SE_UNSUPPORTED_ENCODING ==> r == 20u32,
            self == xmpp_error_type_t::XMPP_SE_UNSUPPORTED_STANZA_TYPE ==> r == 21u32,
            self == xmpp_error_type_t::XMPP_SE_UNSUPPORTED_VERSION ==> r == 22u32,
            self == xmpp_error_type_t::XMPP_SE_XML_NOT_WELL_FORMED ==> r == 23u32,
    {
        match self {
            xmpp_error_type_t::XMPP_SE_BAD_FORMAT => 0,
            xmpp_error_type_t::XMPP_SE_BAD_NS_PREFIX => 1,
            xmpp_error_type_t::XMPP_SE_CONFLICT => 2,
            xmpp_error_type_t::XMPP_SE_CONN_TIMEOUT => 3,
            xmpp_error_type_t::XMPP_SE_HOST_GONE => 4,
            xmpp_error_type_t::XMPP_SE_HOST_UNKNOWN => 5,
            xmpp_error_type_t::XMPP_SE_IMPROPER_ADDR => 6,
            xmpp_error_type_t::XMPP_SE_INTERNAL_SERVER_ERROR => 7,
            xmpp_error_type_t::XMPP_SE_INVALID_FROM => 8,
            xmpp_error_type_t::XMPP_SE_INVALID_ID => 9,
            xmpp_error_type_t::XMPP_SE_INVALID_NS => 10,
            xmpp_error_type_t::XMPP_SE_INVALID_XML => 11,
            xmpp_error_type_t::XMPP_SE_NOT_AUTHORIZED => 12,
            xmpp_error_type_t::XMPP_SE_POLICY_VIOLATION => 13,
            xmpp_error_type_t::XMPP_SE_REMOTE_CONN_FAILED => 14,
            xmpp_error_type_t::XMPP_SE_RESOURCE_CONSTRAINT => 15,
            xmpp_error_type_t::XMPP_SE_RESTRICTED_XML => 16,
            xmpp_error_type_t::XMPP_SE_SEE_OTHER_HOST => 17,
            xmpp_error_type_t::XMPP_SE_SYSTEM_SHUTDOWN => 18,
            xmpp_error_type_t::XMPP_SE_UNDEFINED_CONDITION => 19,
            xmpp_error_type_t::XMPP_SE_UNSUPPORTED_ENCODING => 20,
            xmpp_error_type_t::XMPP_SE_UNSUPPORTED_STANZA_TYPE => 21,
            xmpp_error_type_t::XMPP_SE_UNSUPPORTED_VERSION => 22,
            xmpp_error_type_t::XMPP_SE_XML_NOT_WELL_FORMED => 23,
        }
    }

    /// The variant with the given numeric value, if there is one.
    pub fn from_raw(raw: u32) -> (r: Option<xmpp_error_type_t>)
        ensures
            r matches Some(v) ==> v.raw_spec() == raw,
            r is None <==> raw >= 24,
            raw == 0u32 ==> r == Some(xmpp_error_type_t::XMPP_SE_BAD_FORMAT),
            raw == 1u32 ==> r == Some(xmpp_error_type_t::XMPP_SE_BAD_NS_PREFIX),
            raw == 2u32 ==> r == Some(xmpp_error_type_t::XMPP_SE_CONFLICT),
            raw == 3u32 ==> r == Some(xmpp_error_type_t::XMPP_SE_CONN_TIMEOUT),
            raw == 4u32 ==> r == Some(xmpp_error_type_t::XMPP_SE_HOST_GONE),
            raw == 5u32 ==> r == Some(xmpp_error_type_t::XMPP_SE_HOST_UNKNOWN),
            raw == 6u32 ==> r == Some(xmpp_error_type_t::XMPP_SE_IMPROPER_ADDR),
            raw == 7u32 ==> r == Some(xmpp_error_type_t::XMPP_SE_INTERNAL_SERVER_ERROR),
            raw == 8u32 ==> r == Some(xmpp_error_type_t::XMPP_SE_INVALID_FROM),
            raw == 9u32 ==> r == Some(xmpp_error_type_t::XMPP_SE_INVALID_ID),
            raw == 10u32 ==> r == Some(xmpp_error_type_t::XMPP_SE_INVALID_NS),
            raw == 11u32 ==> r == Some(xmpp_error_type_t::XMPP_SE_INVALID_XML),
            raw == 12u32 ==> r == Some(xmpp_error_type_t::XMPP_SE_NOT_AUTHORIZED),
            raw == 13u32 ==> r == Some(xmpp_error_type_t::XMPP_SE_POLICY_VIOLATION),
            raw == 14u32 ==> r == Some(xmpp_error_type_t::XMPP_SE_REMOTE_CONN_FAILED),
            raw == 15u32 ==> r == Some(xmpp_error_type_t::XMPP_SE_RESOURCE_CONSTRAINT),
            raw == 16u32 ==> r == Some(xmpp_error_type_t::XMPP_SE_RESTRICTED_XML),
            raw == 17u32 ==> r == Some(xmpp_error_type_t::XMPP_SE_SEE_OTHER_HOST),
            raw == 18u32 ==> r == Some(xmpp_error_type_t::XMPP_SE_SYSTEM_SHUTDOWN),
            raw == 19u32 ==> r == Some(xmpp_error_type_t::XMPP_SE_UNDEFINED_CONDITION),
            raw == 20u32 ==> r == Some(xmpp_error_type_t::XMPP_SE_UNSUPPORTED_ENCODING),
            raw == 21u32 ==> r == Some(xmpp_error_type_t::XMPP_SE_UNSUPPORTED_STANZA_TYPE),
            raw == 22u32 ==> r == Some(xmpp_error_type_t::XMPP_SE_UNSUPPORTED_VERSION),
            raw == 23u32 ==> r == Some(xmpp_error_type_t::XMPP_SE_XML_NOT_WELL_FORMED),
    {
        match raw {
            0 => Some(xmpp_error_type_t::XMPP_SE_BAD_FORMAT),
            1 => Some(xmpp_error_type_t::XMPP_SE_BAD_NS_PREFIX),
            2 => Some(xmpp_error_type_t::XMPP_SE_CONFLICT),
            3 => Some(xmpp_error_type_t::XMPP_SE_CONN_TIMEOUT),
            4 => Some(xmpp_error_type_t::XMPP_SE_HOST_GONE),
            5 => Some(xmpp_error_type_t::XMPP_SE_HOST_UNKNOWN),
            6 => Some(xmpp_error_type_t::XMPP_SE_IMPROPER_ADDR),
            7 => Some(xmpp_error_type_t::XMPP_SE_INTERNAL_SERVER_ERROR),
            8 => Some(xmpp_error_type_t::XMPP_SE_INVALID_FROM),
            9 => Some(xmpp_error_type_t::XMPP_SE_INVALID_ID),
            10 => Some(xmpp_error_type_t::XMPP_SE_INVALID_NS),
            11 => Some(xmpp_error_type_t::XMPP_SE_INVALID_XML),
            12 => Some(xmpp_error_type_t::XMPP_SE_NOT_AUTHORIZED),
            13 => Some(xmpp_error_type_t::XMPP_SE_POLICY_VIOLATION),
            14 => Some(xmpp_error_type_t::XMPP_SE_REMOTE_CONN_FAILED),
            15 => Some(xmpp_error_type_t::XMPP_SE_RESOURCE_CONSTRAINT),
            16 => Some(xmpp_error_type_t::XMPP_SE_RESTRICTED_XML),
            17 => Some(xmpp_error_type_t::XMPP_SE_SEE_OTHER_HOST),
            18 => Some(xmpp_error_type_t::XMPP_SE_SYSTEM_SHUTDOWN),
            19 => Some(xmpp_error_type_t::XMPP_SE_UNDEFINED_CONDITION),
            20 => Some(xmpp_error_type_t::XMPP_SE_UNSUPPORTED_ENCODING),
            21 => Some(xmpp_error_type_t::XMPP_SE_UNSUPPORTED_STANZA_TYPE),
            22 => Some(xmpp_error_type_t::XMPP_SE_UNSUPPORTED_VERSION),
            23 => Some(xmpp_error_type_t::XMPP_SE_XML_NOT_WELL_FORMED),
            _ => None,
        }
    }
}

/// The C interface numbers of the stream error conditions are those of strophe.h: XMPP_SE_BAD_FORMAT = 0, XMPP_SE_BAD_NS_PREFIX = 1, XMPP_SE_CONFLICT = 2, XMPP_SE_CONN_TIMEOUT = 3, XMPP_SE_HOST_GONE = 4, XMPP_SE_HOST_UNKNOWN = 5, XMPP_SE_IMPROPER_ADDR = 6, XMPP_SE_INTERNAL_SERVER_ERROR = 7, XMPP_SE_INVALID_FROM = 8, XMPP_SE_INVALID_ID = 9, XMPP_SE_INVALID_NS = 10, XMPP_SE_INVALID_XML = 11, XMPP_SE_NOT_AUTHORIZED = 12, XMPP_SE_POLICY_VIOLATION = 13, XMPP_SE_REMOTE_CONN_FAILED = 14, XMPP_SE_RESOURCE_CONSTRAINT = 15, XMPP_SE_RESTRICTED_XML = 16, XMPP_SE_SEE_OTHER_HOST = 17, XMPP_SE_SYSTEM_SHUTDOWN = 18, XMPP_SE_UNDEFINED_CONDITION = 19, XMPP_SE_UNSUPPORTED_ENCODING = 20, XMPP_SE_UNSUPPORTED_STANZA_TYPE = 21, XMPP_SE_UNSUPPORTED_VERSION = 22, XMPP_SE_XML_NOT_WELL_FORMED = 23. No two
/// variants share a number.
pub proof fn law_error_type_numbers(a: xmpp_error_type_t, b: xmpp_error_type_t)
    ensures
        xmpp_error_type_t::XMPP_SE_BAD_FORMAT.raw_spec() == 0u32,
        xmpp_error_type_t::XMPP_SE_BAD_NS_PREFIX.raw_spec() == 1u32,
        xmpp_error_type_t::XMPP_SE_CONFLICT.raw_spec() == 2u32,
        xmpp_error_type_t::XMPP_SE_CONN_TIMEOUT.raw_spec() == 3u32,
        xmpp_error_type_t::XMPP_SE_HOST_GONE.raw_spec() == 4u32,
        xmpp_error_type_t::XMPP_SE_HOST_UNKNOWN.raw_spec() == 5u32,
        xmpp_error_type_t::XMPP_SE_IMPROPER_ADDR.raw_spec() == 6u32,
        xmpp_error_type_t::XMPP_SE_INTERNAL_SERVER_ERROR.raw_spec() == 7u32,
        xmpp_error_type_t::XMPP_SE_INVALID_FROM.raw_spec() == 8u32,
        xmpp_error_type_t::XMPP_SE_INVALID_ID.raw_spec() == 9u32,
        xmpp_error_type_t::XMPP_SE_INVALID_NS.raw_spec() == 10u32,
        xmpp_error_type_t::XMPP_SE_INVALID_XML.raw_spec() == 11u32,
        xmpp_error_type_t::XMPP_SE_NOT_AUTHORIZED.raw_spec() == 12u32,
        xmpp_error_type_t::XMPP_SE_POLICY_VIOLATION.raw_spec() == 13u32,
        xmpp_error_type_t::XMPP_SE_REMOTE_CONN_FAILED.raw_spec() == 14u32,
        xmpp_error_type_t::XMPP_SE_RESOURCE_CONSTRAINT.raw_spec() == 15u32,
        xmpp_error_type_t::XMPP_SE_RESTRICTED_XML.raw_spec() == 16u32,
        xmpp_error_type_t::XMPP_SE_SEE_OTHER_HOST.raw_spec() == 17u32,
        xmpp_error_type_t::XMPP_SE_SYSTEM_SHUTDOWN.raw_spec() == 18u32,
        xmpp_error_type_t::XMPP_SE_UNDEFINED_CONDITION.raw_spec() == 19u32,
        xmpp_error_type_t::XMPP_SE_UNSUPPORTED_ENCODING.raw_spec() == 20u32,
        xmpp_error_type_t::XMPP_SE_UNSUPPORTED_STANZA_TYPE.raw_spec() == 21u32,
        xmpp_error_type_t::XMPP_SE_UNSUPPORTED_VERSION.raw_spec() == 22u32,
        xmpp_error_type_t::XMPP_SE_XML_NOT_WELL_FORMED.raw_spec() == 23u32,
        a.raw_spec() == b.raw_spec() ==> a == b,
{
}

/// Elements of a TLS certificate that can be queried.
#[allow(non_camel_case_types)]
#[derive(Debug, Clone, Copy, PartialEq, Eq, Hash, Structural)]
pub enum xmpp_cert_element_t {
    XMPP_CERT_VERSION,
    XMPP_CERT_SERIALNUMBER,
    XMPP_CERT_SUBJECT,
    XMPP_CERT_ISSUER,
    XMPP_CERT_NOTBEFORE,
    XMPP_CERT_NOTAFTER,
    XMPP_CERT_KEYALG,
    XMPP_CERT_SIGALG,
    XMPP_CERT_FINGERPRINT_SHA1,
    XMPP_CERT_FINGERPRINT_SHA256,
    XMPP_CERT_ELEMENT_MAX,
}

impl xmpp_cert_element_t {
    /// The numeric value of this variant in the C interface.
    pub open spec fn raw_spec(self) -> u32 {
        match self {
            xmpp_cert_element_t::XMPP_CERT_VERSION => 0u32,
            xmpp_cert_element_t::XMPP_CERT_SERIALNUMBER => 1u32,
            xmpp_cert_element_t::XMPP_CERT_SUBJECT => 2u32,
            xmpp_cert_element_t::XMPP_CERT_ISSUER => 3u32,
            xmpp_cert_element_t::XMPP_CERT_NOTBEFORE => 4u32,
            xmpp_cert_element_t::XMPP_CERT_NOTAFTER => 5u32,
            xmpp_cert_element_t::XMPP_CERT_KEYALG => 6u32,
            xmpp_cert_element_t::XMPP_CERT_SIGALG => 7u32,
            xmpp_cert_element_t::XMPP_CERT_FINGERPRINT_SHA1 => 8u32,
            xmpp_cert_element_t::XMPP_CERT_FINGERPRINT_SHA256 => 9u32,
            xmpp_cert_element_t::XMPP_CERT_ELEMENT_MAX => 10u32,
        }
    }

    /// The numeric value of this variant in the C interface.
    #[verifier::when_used_as_spec(raw_spec)]
    pub fn to_raw(self) -> (r: u32)
        ensures
            r == self.raw_spec(),
            self == xmpp_cert_element_t::XMPP_CERT_VERSION ==> r == 0u32,
            self == xmpp_cert_element_t::XMPP_CERT_SERIALNUMBER ==> r == 1u32,
            self == xmpp_cert_element_t::XMPP_CERT_SUBJECT ==> r == 2u32,
            self == xmpp_cert_element_t::XMPP_CERT_ISSUER ==> r == 3u32,
            self == xmpp_cert_element_t::XMPP_CERT_NOTBEFORE ==> r == 4u32,
            self == xmpp_cert_element_t::XMPP_CERT_NOTAFTER ==> r == 5u32,
            self == xmpp_cert_element_t::XMPP_CERT_KEYALG ==> r == 6u32,
            self == xmpp_cert_element_t::XMPP_CERT_SIGALG ==> r == 7u32,
            self == xmpp_cert_element_t::XMPP_CERT_FINGERPRINT_SHA1 ==> r == 8u32,
            self == xmpp_cert_element_t::XMPP_CERT_FINGERPRINT_SHA256 ==> r == 9u32,
            self == xmpp_cert_element_t::XMPP_CERT_ELEMENT_MAX ==> r == 10u32,
    {
        match self {
            xmpp_cert_element_t::XMPP_CERT_VERSION => 0,
            xmpp_cert_element_t::XMPP_CERT_SERIALNUMBER => 1,
            xmpp_cert_element_t::XMPP_CERT_SUBJECT => 2,
            xmpp_cert_element_t::XMPP_CERT_ISSUER => 3,
            xmpp_cert_element_t::XMPP_CERT_NOTBEFORE => 4,
            xmpp_cert_element_t::XMPP_CERT_NOTAFTER => 5,
            xmpp_cert_element_t::XMPP_CERT_KEYALG => 6,
            xmpp_cert_element_t::XMPP_CERT_SIGALG => 7,
            xmpp_cert_element_t::XMPP_CERT_FINGERPRINT_SHA1 => 8,
            xmpp_cert_element_t::XMPP_CERT_FINGERPRINT_SHA256 => 9,
            xmpp_cert_element_t::XMPP_CERT_ELEMENT_MAX => 10,
        }
    }

    /// The variant with the given numeric value, if there is one.
    pub fn from_raw(raw: u32) -> (r: Option<xmpp_cert_element_t>)
        ensures
            r matches Some(v) ==> v.raw_spec() == raw,
            r is None <==> raw >= 11,
            raw == 0u32 ==> r == Some(xmpp_cert_element_t::XMPP_CERT_VERSION),
            raw == 1u32 ==> r == Some(xmpp_cert_element_t::XMPP_CERT_SERIALNUMBER),
            raw == 2u32 ==> r == Some(xmpp_cert_element_t::XMPP_CERT_SUBJECT),
            raw == 3u32 ==> r == Some(xmpp_cert_element_t::XMPP_CERT_ISSUER),
            raw == 4u32 ==> r == Some(xmpp_cert_element_t::XMPP_CERT_NOTBEFORE),
            raw == 5u32 ==> r == Some(xmpp_cert_element_t::XMPP_CERT_NOTAFTER),
            raw == 6u32 ==> r == Some(xmpp_cert_element_t::XMPP_CERT_KEYALG),
            raw == 7u32 ==> r == Some(xmpp_cert_element_t::XMPP_CERT_SIGALG),
            raw == 8u32 ==> r == Some(xmpp_cert_element_t::XMPP_CERT_FINGERPRINT_SHA1),
            raw == 9u32 ==> r == Some(xmpp_cert_element_t::XMPP_CERT_FINGERPRINT_SHA256),
            raw == 10u32 ==> r == Some(xmpp_cert_element_t::XMPP_CERT_ELEMENT_MAX),
    {
        match raw {
            0 => Some(xmpp_cert_element_t::XMPP_CERT_VERSION),
            1 => Some(xmpp_cert_element_t::XMPP_CERT_SERIALNUMBER),
            2 => Some(xmpp_cert_element_t::XMPP_CERT_SUBJECT),
            3 => Some(xmpp_cert_element_t::XMPP_CERT_ISSUER),
            4 => Some(xmpp_cert_element_t::XMPP_CERT_NOTBEFORE),
            5 => Some(xmpp_cert_element_t::XMPP_CERT_NOTAFTER),
            6 => Some(xmpp_cert_element_t::XMPP_CERT_KEYALG),
            7 => Some(xmpp_cert_element_t::XMPP_CERT_SIGALG),
            8 => Some(xmpp_cert_element_t::XMPP_CERT_FINGERPRINT_SHA1),
            9 => Some(xmpp_cert_element_t::XMPP_CERT_FINGERPRINT_SHA256),
            10 => Some(xmpp_cert_element_t::XMPP_CERT_ELEMENT_MAX),
            _ => None,
        }
    }
}

/// The C interface numbers of the certificate elements are those of strophe.h: XMPP_CERT_VERSION = 0, XMPP_CERT_SERIALNUMBER = 1, XMPP_CERT_SUBJECT = 2, XMPP_CERT_ISSUER = 3, XMPP_CERT_NOTBEFORE = 4, XMPP_CERT_NOTAFTER = 5, XMPP_CERT_KEYALG = 6, XMPP_CERT_SIGALG = 7, XMPP_CERT_FINGERPRINT_SHA1 = 8, XMPP_CERT_FINGERPRINT_SHA256 = 9, XMPP_CERT_ELEMENT_MAX = 10. No two
/// variants share a number.
pub proof fn law_cert_element_numbers(a: xmpp_cert_element_t, b: xmpp_cert_element_t)
    ensures
        xmpp_cert_element_t::XMPP_CERT_VERSION.raw_spec() == 0u32,
        xmpp_cert_element_t::XMPP_CERT_SERIALNUMBER.raw_spec() == 1u32,
        xmpp_cert_element_t::XMPP_CERT_SUBJECT.raw_spec() == 2u32,
        xmpp_cert_element_t::XMPP_CERT_ISSUER.raw_spec() == 3u32,
        xmpp_cert_element_t::XMPP_CERT_NOTBEFORE.raw_spec() == 4u32,
        xmpp_cert_element_t::XMPP_CERT_NOTAFTER.raw_spec() == 5u32,
        xmpp_cert_element_t::XMPP_CERT_KEYALG.raw_spec() == 6u32,
        xmpp_cert_element_t::XMPP_CERT_SIGALG.raw_spec() == 7u32,
        xmpp_cert_element_t::XMPP_CERT_FINGERPRINT_SHA1.raw_spec() == 8u32,
        xmpp_cert_element_t::XMPP_CERT_FINGERPRINT_SHA256.raw_spec() == 9u32,
        xmpp_cert_element_t::XMPP_CERT_ELEMENT_MAX.raw_spec() == 10u32,
        a.raw_spec() == b.raw_spec() ==> a == b,
{
}

/// Which end of the send queue to drop an element from.
#[allow(non_camel_case_types)]
#[derive(Debug, Clone, Copy, PartialEq, Eq, Hash, Structural)]
pub enum xmpp_queue_element_t {
    XMPP_QUEUE_OLDEST,
    XMPP_QUEUE_YOUNGEST,
}

impl xmpp_queue_element_t {
    /// The numeric value of this variant in the C interface.
    pub open spec fn raw_spec(self) -> i32 {
        match self {
            xmpp_queue_element_t::XMPP_QUEUE_OLDEST => -1i32,
            xmpp_queue_element_t::XMPP_QUEUE_YOUNGEST => -2i32,
        }
    }

    /// The numeric value of this variant in the C interface.
    #[verifier::when_used_as_spec(raw_spec)]
    pub fn to_raw(self) -> (r: i32)
        ensures
            r == self.raw_spec(),
            self == xmpp_queue_element_t::XMPP_QUEUE_OLDEST ==> r == -1i32,
            self == xmpp_queue_element_t::XMPP_QUEUE_YOUNGEST ==> r == -2i32,
    {
        match self {
            xmpp_queue_element_t::XMPP_QUEUE_OLDEST => -1,
            xmpp_queue_element_t::XMPP_QUEUE_YOUNGEST => -2,
        }
    }
}

/// The C interface numbers of the send queue ends are those of strophe.h: XMPP_QUEUE_OLDEST = -1, XMPP_QUEUE_YOUNGEST = -2. No two
/// variants share a number.
pub proof fn law_queue_element_numbers(a: xmpp_queue_element_t, b: xmpp_queue_element_t)
    ensures
        xmpp_queue_element_t::XMPP_QUEUE_OLDEST.raw_spec() == -1i32,
        xmpp_queue_element_t::XMPP_QUEUE_YOUNGEST.raw_spec() == -2i32,
        a.raw_spec() == b.raw_spec() ==> a == b,
{
}

} // verus!
