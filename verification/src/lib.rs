//! Verified core of an ergonomic wrapper around libstrophe, an XMPP client library.
//!
//! The crate holds the decisions the wrapper makes around its calls into the C library: the
//! tables of handlers a connection owns, when a connection attempt may start and how a failed
//! one is undone, how callbacks answer the C library, the process-wide setup and shutdown, the
//! error codes and their messages, connection flags and a few stanza helpers.
pub mod cert;
pub mod connection;
pub mod decimal;
pub mod error;
pub mod ffi_types;
pub mod flags;
pub mod handlers;
pub mod lifecycle;
pub mod sm_state;
pub mod stanza;
pub mod types;

pub use connection::{ConnectionError, ConnectionEvent, ConnectionHandlers};
pub use error::{into_result, Error, OwnedStreamError, StreamError, ToTextError};
pub use ffi_types::{Nullable, FFI};
pub use flags::ConnectionFlags;
pub use handlers::{
    BoxedHandlers, CbAddr, CertFailResult, FatHandler, HandlerCb, HandlerId, HandlerResult,
    IdHandlerId, SockoptResult, TimedHandlerId,
};
pub use lifecycle::{shutdown, Library, LibraryCall};
pub use sm_state::{SerializedSmState, SerializedSmStateRef};
pub use stanza::XMPP_STANZA_NAME_IN_NS;
pub use types::xmpp_cert_element_t as CertElement;
pub use types::xmpp_error_type_t as ErrorType;
pub use types::xmpp_log_level_t as LogLevel;
pub use types::xmpp_queue_element_t as QueueElement;
pub use types::{
    xmpp_cert_element_t, xmpp_conn_event_t, xmpp_conn_type_t, xmpp_error_type_t, xmpp_log_level_t,
    xmpp_queue_element_t,
};
