use std::collections::HashMap;

use libstrophe::connection::{
    keepalive_secs, password_reply, password_room, release_keyed_handler, set_keyed_handler, timed_period_millis, timeout_millis,
    ConnectionError,
};
use libstrophe::cert::{cert_debug_elements, cert_debug_entries};
use libstrophe::decimal::decimal;
use libstrophe::error::error_type_to_str;
use libstrophe::ffi_types::bytes_nul_free;
use libstrophe::lifecycle::Library;
use libstrophe::stanza::{flatten_attributes, pair_attributes};
use libstrophe::xmpp_conn_event_t as Ev;
use libstrophe::{
    into_result, shutdown, CertElement, ConnectionEvent, ConnectionFlags, Error, ErrorType, LibraryCall, LogLevel, Nullable,
    SerializedSmStateRef, StreamError, ToTextError, FFI,
};

#[test]
fn error_codes() {
    assert_eq!(into_result(0), Ok(()));
    assert_eq!(into_result(-1), Err(Error::MemoryError));
    assert_eq!(into_result(-2), Err(Error::InvalidOperation));
    assert_eq!(into_result(-3), Err(Error::InternalError));
    assert_eq!(Error::from_code(-2), Error::InvalidOperation);
}

#[test]
fn error_messages() {
    assert_eq!(Error::MemoryError.to_string(), "Memory error");
    assert_eq!(Error::InvalidOperation.to_string(), "Invalid operation");
    assert_eq!(Error::InternalError.to_string(), "Internal error");
    assert_eq!(
        ToTextError::from(Error::InvalidOperation).to_string(),
        "Strophe error: Invalid operation"
    );
    let bad = [0xffu8, 0xfe];
    let utf8 = std::str::from_utf8(&bad).unwrap_err();
    let text = ToTextError::from(utf8).to_string();
    assert_eq!(text, format!("UTF-8 error: {}", utf8));
    assert_eq!(text, "UTF-8 error: invalid utf-8 sequence of 1 bytes from index 0");
    assert_eq!(libstrophe::error::utf8_error_message("bad byte"), "UTF-8 error: bad byte");
}

#[test]
fn stream_error_messages() {
    assert_eq!(error_type_to_str(ErrorType::XMPP_SE_BAD_FORMAT), "Bad format");
    assert_eq!(error_type_to_str(ErrorType::XMPP_SE_HOST_GONE), "Gone");
    assert_eq!(error_type_to_str(ErrorType::XMPP_SE_XML_NOT_WELL_FORMED), "XML is not well formed");
    let e = StreamError { typ: ErrorType::XMPP_SE_CONFLICT, text: Some("replaced"), stanza: "<stream:error/>" };
    assert_eq!(e.to_string(), "Conflict: replaced");
    let owned = e.to_owned(e.stanza.to_string());
    assert_eq!(owned.text.as_deref(), Some("replaced"));
    assert_eq!(owned.to_string(), "Conflict: replaced");
    assert_eq!(owned.typ, ErrorType::XMPP_SE_CONFLICT);
    assert_eq!(owned.stanza, "<stream:error/>");
    let bare = StreamError { typ: ErrorType::XMPP_SE_SYSTEM_SHUTDOWN, text: None, stanza: () };
    assert!(bare.to_owned(()).text.is_none());
    assert_eq!(bare.to_string(), "System shutdown");
}

#[test]
fn connection_event_messages() {
    assert_eq!(ConnectionEvent::<()>::RawConnect.to_string(), "Raw connect");
    assert_eq!(ConnectionEvent::<()>::Connect.to_string(), "Connect");
    assert_eq!(ConnectionEvent::<()>::Disconnect(None).to_string(), "Disconnect");
    let err = ConnectionError::<()> { error: 111, stream_error: None };
    assert_eq!(ConnectionEvent::Disconnect(Some(err)).to_string(), "Disconnect, error: Error code: 111");
    let stream = StreamError { typ: ErrorType::XMPP_SE_CONFLICT, text: Some("replaced"), stanza: () };
    let err = ConnectionError { error: 0, stream_error: Some(stream) };
    assert_eq!(ConnectionEvent::Disconnect(Some(err)).to_string(), "Disconnect, error: Conflict: replaced");
}

#[test]
fn connection_event_from_library() {
    assert!(matches!(ConnectionEvent::<()>::from_raw(Ev::XMPP_CONN_CONNECT, 0, None), ConnectionEvent::Connect));
    assert!(matches!(ConnectionEvent::<()>::from_raw(Ev::XMPP_CONN_RAW_CONNECT, 0, None), ConnectionEvent::RawConnect));
    assert!(matches!(ConnectionEvent::<()>::from_raw(Ev::XMPP_CONN_DISCONNECT, 0, None), ConnectionEvent::Disconnect(None)));
    assert!(matches!(
        ConnectionEvent::<()>::from_raw(Ev::XMPP_CONN_DISCONNECT, 104, None),
        ConnectionEvent::Disconnect(Some(ConnectionError { error: 104, .. }))
    ));
    let stream = StreamError { typ: ErrorType::XMPP_SE_HOST_GONE, text: None, stanza: 7u8 };
    match ConnectionEvent::from_raw(Ev::XMPP_CONN_DISCONNECT, 0, Some(stream)) {
        ConnectionEvent::Disconnect(Some(err)) => {
            assert_eq!(err.error, 0);
            assert_eq!(err.stream_error.map(|e| e.stanza), Some(7u8));
        }
        _ => panic!("expected a disconnect with an error"),
    }
}

#[test]
fn ffi_values() {
    assert!(FFI(1).receive_bool());
    assert!(FFI(-5).receive_bool());
    assert!(!FFI(0).receive_bool());
    assert_eq!(FFI("abc").send(), vec![b'a', b'b', b'c', 0]);
    assert!(matches!(FFI(None::<&str>).send(), Nullable::Null));
    match FFI(Some("x")).send() {
        Nullable::Val(v) => assert_eq!(v, vec![b'x', 0]),
        Nullable::Null => panic!("expected a value"),
    }
    assert_eq!(Nullable::from(Some(1234u16)).val(), 1234);
    assert_eq!(Nullable::<u16>::from(None).val(), 0);
    assert!(bytes_nul_free(b"abc"));
    assert!(!bytes_nul_free(b"a\0c"));
}

#[test]
fn flags() {
    let trust = ConnectionFlags::TRUST_TLS();
    assert_eq!(trust.bits(), 8);
    assert_eq!(ConnectionFlags::from_bits(8), Some(trust));
    assert_eq!(ConnectionFlags::from_bits(64), Some(ConnectionFlags::ENABLE_COMPRESSION()));
    assert_eq!(ConnectionFlags::from_bits(128), Some(ConnectionFlags::COMPRESSION_DONT_RESET()));
    assert_eq!(ConnectionFlags::from_bits(256), None);
    assert_eq!(ConnectionFlags::from_bits(-1), None);
    let both = trust.union(ConnectionFlags::DISABLE_SM());
    assert_eq!(both.bits(), 40);
    assert!(both.contains(trust));
    assert!(!trust.contains(both));
    assert_eq!(ConnectionFlags::all().bits(), 255);
    assert_eq!(ConnectionFlags::empty().bits(), 0);
    assert_eq!(ConnectionFlags::from_bits(ConnectionFlags::MANDATORY_TLS().bits()), Some(ConnectionFlags::MANDATORY_TLS()));
}

#[test]
fn flag_operations() {
    let trust = ConnectionFlags::TRUST_TLS();
    let sm = ConnectionFlags::DISABLE_SM();
    let both = trust.union(sm);
    assert_eq!(both.intersection(trust).bits(), 8);
    assert_eq!(both.difference(trust).bits(), 32);
    assert_eq!(both.symmetric_difference(ConnectionFlags::DISABLE_TLS()).bits(), 41);
    assert_eq!(both.complement().bits(), 255 - 40);
    assert_eq!(ConnectionFlags::from_bits_truncate(-1).bits(), 255);
    assert_eq!(ConnectionFlags::from_bits_truncate(0x1_09).bits(), 9);
    assert!(ConnectionFlags::empty().is_empty());
    assert!(!both.is_empty());
    assert!(ConnectionFlags::all().is_all());
    assert!(both.intersects(sm));
    assert!(!trust.intersects(sm));
    let mut f = ConnectionFlags::empty();
    f.insert(trust);
    assert_eq!(f.bits(), 8);
    f.toggle(both);
    assert_eq!(f.bits(), 32);
    f.set(trust, true);
    assert_eq!(f.bits(), 40);
    f.set(sm, false);
    assert_eq!(f.bits(), 8);
    f.remove(trust);
    assert!(f.is_empty());
}

#[test]
fn library_lifecycle() {
    let mut lib = Library::new();
    assert_eq!(lib.init(), Some(LibraryCall::Initialize));
    assert_eq!(lib.init(), None);
    assert_eq!(shutdown(&mut lib), vec![LibraryCall::Shutdown]);
    assert_eq!(shutdown(&mut lib), vec![]);
    assert_eq!(lib.init(), None);
    assert!(lib.is_shut_down());

    let mut fresh = Library::new();
    assert_eq!(shutdown(&mut fresh), vec![LibraryCall::Initialize, LibraryCall::Shutdown]);
    assert_eq!(shutdown(&mut fresh), vec![]);
}

#[test]
fn password_rooms() {
    assert_eq!(password_room(0), 0);
    assert_eq!(password_room(1), 0);
    assert_eq!(password_room(9), 8);
}

#[test]
fn password_replies() {
    let (code, bytes) = password_reply(9, Some("secret".to_string()));
    assert_eq!(code, 6);
    assert_eq!(bytes, b"secret".to_vec());
    let (code, bytes) = password_reply(7, Some("secret".to_string()));
    assert_eq!(code, 6);
    assert_eq!(bytes, b"secret".to_vec());
    let (code, bytes) = password_reply(6, Some("secret".to_string()));
    assert_eq!(code, -1);
    assert!(bytes.is_empty());
    assert_eq!(password_reply(0, Some(String::new())).0, 0);
    assert_eq!(password_reply(10, Some("a\0b".to_string())).0, -1);
    assert_eq!(password_reply(10, None).0, -1);
}

#[test]
fn durations() {
    assert_eq!(keepalive_secs(30), 30);
    assert_eq!(keepalive_secs(u64::MAX), i32::MAX);
    assert_eq!(timed_period_millis(1000, u64::MAX), 1000);
    assert_eq!(timed_period_millis(u128::MAX, u64::MAX), u64::MAX);
    assert_eq!(timed_period_millis(1 << 40, u32::MAX as u64), u32::MAX as u64);
    assert_eq!(timed_period_millis(4_000_000_000, u32::MAX as u64), 4_000_000_000);
    assert_eq!(timeout_millis(1000), 1000);
    assert_eq!(timeout_millis((1u128 << 64) + 5), 5);
}

#[test]
fn keyed_handlers() {
    let mut shared: HashMap<usize, &str> = HashMap::new();
    let mut current = None;
    set_keyed_handler(&mut shared, &mut current, 1, "first");
    assert_eq!(current, Some(1));
    set_keyed_handler(&mut shared, &mut current, 2, "second");
    assert_eq!(current, Some(2));
    assert_eq!(shared.get(&1), None);
    assert_eq!(shared.get(&2), Some(&"second"));
    set_keyed_handler(&mut shared, &mut current, 2, "again");
    assert_eq!(shared.get(&2), None);
    release_keyed_handler(&mut shared, &mut current);
    assert_eq!(current, None);
}

#[test]
fn attributes() {
    let pairs = vec![("xmlns", "myns"), ("id", "stanza_id")];
    let flat = flatten_attributes(&pairs);
    assert_eq!(flat, vec!["xmlns", "myns", "id", "stanza_id"]);
    assert_eq!(pair_attributes(flat), pairs);
    let odd = vec!["a".to_string(), "b".to_string(), "c".to_string()];
    assert_eq!(pair_attributes(odd), vec![("a".to_string(), "b".to_string())]);
    assert_eq!(pair_attributes(Vec::<u8>::new()), vec![]);
}

#[test]
fn enum_codes() {
    assert_eq!(LogLevel::XMPP_LEVEL_ERROR.to_raw(), 3);
    assert_eq!(LogLevel::from_raw(1), Some(LogLevel::XMPP_LEVEL_INFO));
    assert_eq!(LogLevel::from_raw(4), None);
    assert_eq!(ErrorType::from_raw(23), Some(ErrorType::XMPP_SE_XML_NOT_WELL_FORMED));
    assert_eq!(libstrophe::QueueElement::XMPP_QUEUE_YOUNGEST.to_raw(), -2);
}

#[test]
fn sm_state_bytes() {
    let buf = [1u8, 2, 3];
    let state = SerializedSmStateRef::new(&buf);
    assert_eq!(state.as_slice(), &buf);
    assert_eq!(state.to_owned().as_slice(), &buf);
}

#[test]
fn decimal_texts() {
    assert_eq!(decimal(0), "0");
    assert_eq!(decimal(7), "7");
    assert_eq!(decimal(10), "10");
    assert_eq!(decimal(-42), "-42");
    assert_eq!(decimal(1234567890), "1234567890");
    assert_eq!(decimal(i128::MAX), i128::MAX.to_string());
    assert_eq!(decimal(i128::MIN), i128::MIN.to_string());
}

#[test]
fn cert_debug_fields() {
    let elems = cert_debug_elements();
    assert_eq!(elems.len(), 10);
    assert_eq!(elems[0], CertElement::XMPP_CERT_VERSION);
    assert_eq!(elems[9], CertElement::XMPP_CERT_FINGERPRINT_SHA256);
    let fields = vec![
        (Some("Version"), Some("3")),
        (None, Some("hidden")),
        (Some("Subject"), None),
    ];
    let dns = vec!["a.example", "b.example"];
    let entries = cert_debug_entries(&fields, &dns);
    assert_eq!(
        entries,
        vec![
            ("Version", "3"),
            ("Subject", "<unreadable value or non-utf8>"),
            ("DNS Name", "a.example"),
            ("DNS Name", "b.example"),
        ]
    );
}
