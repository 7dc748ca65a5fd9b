use libstrophe::connection::{connect_precheck, ConnectionHandlers};
use libstrophe::handlers::{certfail_callback_code, sockopt_callback_code, BoxedHandlers, FatHandler};
use libstrophe::{xmpp_conn_event_t, CertFailResult, ConnectionEvent, Error, HandlerResult, SockoptResult};

type Handlers = ConnectionHandlers<&'static str, u32, u32, &'static str, &'static str>;

#[test]
fn mod_timed_handler() {
    let mut conn: Handlers = ConnectionHandlers::new();
    let handle = conn.timed_handler_add(7, 0x1000).expect("Can't add timed handler");
    assert!(matches!(conn.timed_handler_add(7, 0x1000), None));
    assert_eq!(conn.timed_handler_delete(handle), 1);
    assert_eq!(conn.timed.count(), 0);
}

#[test]
fn mod_stanza_handler() {
    let mut conn: Handlers = ConnectionHandlers::new();
    let handle = conn.handler_add(1, 0x2000).expect("Can't add handler");
    assert!(matches!(conn.handler_add(1, 0x2000), None));
    conn.handler_delete(handle);
    let handle = conn.handler_add(1, 0x2000).expect("Can't add handler");
    conn.handler_delete(handle);
    assert_eq!(conn.stanza.count(), 0);
}

#[test]
fn mod_id_handler() {
    let mut conn: Handlers = ConnectionHandlers::new();
    let h = conn.id_handler_add(1, 0x3000, "test".to_string()).expect("Can't add id handler");
    assert!(matches!(conn.id_handler_add(1, 0x3000, "test".to_string()), None));
    let (id, removed) = conn.id_handler_delete(h);
    assert_eq!(id, Some("test".to_string()));
    assert_eq!(removed, 1);
}

#[test]
fn mod_conn_client_wo_jid() {
    assert!(matches!(connect_precheck(None), Err(Error::InvalidOperation)));
    assert!(matches!(connect_precheck(Some("test-JID@127.50.60.70")), Ok(())));
}

#[test]
fn tests_timed_handler() {
    let mut conn: Handlers = ConnectionHandlers::new();
    let handle = conn.timed_handler_add(1, 0x1100).unwrap();
    assert!(matches!(conn.timed_handler_add(1, 0x1100), None));
    assert_eq!(conn.timed_handler_delete(handle), 1);
}

#[test]
fn tests_stanza_handler() {
    let mut conn: Handlers = ConnectionHandlers::new();
    let by_ref = 0x2100;
    let by_value = 0x2200;
    let handle = conn.handler_add(1, by_ref).unwrap();
    assert!(matches!(conn.handler_add(1, by_ref), None));
    assert_eq!(conn.handler_delete(handle), 1);
    let handle = conn.handler_add(1, by_value).unwrap();
    assert_eq!(conn.handler_delete(handle), 1);
}

#[test]
fn tests_id_handler() {
    let mut conn: Handlers = ConnectionHandlers::new();
    let h = conn.id_handler_add(1, 0x3100, "test".to_string()).unwrap();
    assert!(matches!(conn.id_handler_add(1, 0x3100, "test".to_string()), None));
    assert_eq!(conn.id_handler_delete(h), (Some("test".to_string()), 1));
}

#[test]
fn tests_conn_client_wo_jid() {
    assert!(matches!(connect_precheck(None), Err(Error::InvalidOperation)));
}

#[test]
fn delete_of_unknown_handler_removes_nothing() {
    let mut conn: Handlers = ConnectionHandlers::new();
    let handle = conn.handler_add(1, 0x10).unwrap();
    let other = conn.handler_add(2, 0x20).unwrap();
    assert_eq!(conn.handler_delete(handle), 1);
    let again = conn.handler_add(3, 0x10).unwrap();
    assert_eq!(conn.handler_delete(again), 1);
    assert_eq!(conn.handler_delete(other), 1);
    let gone = conn.handler_add(4, 0x30).unwrap();
    assert_eq!(conn.handler_delete(gone), 1);
    let stale = conn.handler_add(5, 0x30).unwrap();
    conn.handler_delete(stale);
    let stale_again = libstrophe::HandlerId(0x30);
    assert_eq!(conn.handler_delete(stale_again), 0);
}

#[test]
fn clearing_splits_plain_and_id_handlers() {
    let mut conn: Handlers = ConnectionHandlers::new();
    conn.handler_add(1, 0x10).unwrap();
    conn.id_handler_add(2, 0x20, "roster".to_string()).unwrap();
    conn.handler_add(3, 0x30).unwrap();
    conn.id_handler_add(4, 0x40, "ping".to_string()).unwrap();
    let removed = conn.handlers_clear();
    assert_eq!(removed.len(), 2);
    assert_eq!(removed[0].handler, 1);
    assert_eq!(removed[1].handler, 3);
    assert_eq!(conn.stanza.count(), 2);
    let removed_ids = conn.id_handlers_clear();
    assert_eq!(removed_ids.len(), 2);
    assert_eq!(removed_ids[0].extra, Some("roster".to_string()));
    assert_eq!(removed_ids[1].extra, Some("ping".to_string()));
    assert_eq!(conn.stanza.count(), 0);
}

#[test]
fn timed_clear_takes_all() {
    let mut conn: Handlers = ConnectionHandlers::new();
    conn.timed_handler_add(1, 0x10).unwrap();
    conn.timed_handler_add(2, 0x20).unwrap();
    let removed = conn.timed_handlers_clear();
    assert_eq!(removed.len(), 2);
    assert_eq!(conn.timed.count(), 0);
}

#[test]
fn handler_done_codes() {
    let mut conn: Handlers = ConnectionHandlers::new();
    conn.timed_handler_add(1, 0x10).unwrap();
    conn.handler_add(1, 0x20).unwrap();
    assert_eq!(conn.timed_handler_done(0x10, HandlerResult::KeepHandler), 1);
    assert_eq!(conn.timed.count(), 1);
    assert_eq!(conn.timed_handler_done(0x10, HandlerResult::RemoveHandler), 0);
    assert_eq!(conn.timed.count(), 0);
    assert_eq!(conn.stanza_handler_done(0x20, HandlerResult::RemoveHandler), 0);
    assert_eq!(conn.stanza.count(), 0);
}

#[test]
fn failed_connect_restores_handler() {
    let mut conn: Handlers = ConnectionHandlers::new();
    let old = conn.set_connection_handler("first");
    assert_eq!(old, None);
    assert_eq!(conn.finish_connect(0, old), Ok(()));
    assert_eq!(conn.connection, Some("first"));
    let old = conn.set_connection_handler("second");
    assert_eq!(old, Some("first"));
    assert_eq!(conn.finish_connect(-2, old), Err(Error::InvalidOperation));
    assert_eq!(conn.connection, Some("first"));
}

#[test]
fn password_and_sm_callbacks() {
    let mut conn: Handlers = ConnectionHandlers::new();
    assert_eq!(conn.clear_password_callback(), 0);
    assert_eq!(conn.set_password_callback("a"), None);
    assert_eq!(conn.set_password_callback("b"), Some("a"));
    assert_eq!(conn.clear_password_callback(), 1);
    assert_eq!(conn.password, None);
    assert_eq!(conn.set_sm_callback("s"), None);
    assert_eq!(conn.clear_sm_callback(), 1);
    assert_eq!(conn.clear_sm_callback(), 0);
}

#[test]
fn callback_codes() {
    assert_eq!(HandlerResult::RemoveHandler.to_c_int(), 0);
    assert_eq!(HandlerResult::KeepHandler.to_c_int(), 1);
    assert_eq!(certfail_callback_code(None), 0);
    assert_eq!(certfail_callback_code(Some(CertFailResult::EstablishConnection)), 1);
    assert_eq!(certfail_callback_code(Some(CertFailResult::TerminateConnection)), 0);
    assert_eq!(sockopt_callback_code(None), -1);
    assert_eq!(sockopt_callback_code(Some(SockoptResult::Success)), 0);
    assert_eq!(sockopt_callback_code(Some(SockoptResult::Error)), -1);
}

#[test]
fn boxed_handlers_store_validate_drop() {
    let mut table: BoxedHandlers<u8, ()> = BoxedHandlers::new(4);
    assert!(table.store(FatHandler { handler: 1, cb_addr: 5, extra: () }));
    assert!(!table.store(FatHandler { handler: 2, cb_addr: 5, extra: () }));
    assert!(table.store(FatHandler { handler: 3, cb_addr: 6, extra: () }));
    assert_eq!(table.validate(5).map(|h| h.handler), Some(1));
    assert!(table.validate(7).is_none());
    assert_eq!(table.drop_handler(5), 1);
    assert_eq!(table.drop_handler(5), 0);
    assert_eq!(table.count(), 1);
}

#[test]
fn handlers_describe() {
    let mut conn: Handlers = ConnectionHandlers::new();
    assert_eq!(
        conn.describe(),
        "FatHandlers { connection: \"unset\", timed: \"0 handlers\", stanza: \"0 handlers\", cert_fail_handler_id: \"unset\", sockopt_handler_id: \"unset\", password: \"no handler\", sm_state: \"no handler\" }"
    );
    conn.set_connection_handler("c");
    conn.timed_handler_add(1, 1).unwrap();
    conn.timed_handler_add(1, 2).unwrap();
    conn.set_password_callback("p");
    assert_eq!(
        conn.describe(),
        "FatHandlers { connection: \"set\", timed: \"2 handlers\", stanza: \"0 handlers\", cert_fail_handler_id: \"set\", sockopt_handler_id: \"set\", password: \"handler set\", sm_state: \"no handler\" }"
    );
}

#[test]
fn clearing_the_password_callback_keeps_the_rest() {
    let mut conn: Handlers = ConnectionHandlers::new();
    conn.timed_handler_add(1, 0x10).unwrap();
    conn.handler_add(2, 0x20).unwrap();
    conn.set_sm_callback("sm");
    conn.set_password_callback("pw");
    assert_eq!(conn.clear_password_callback(), 1);
    assert_eq!(conn.clear_password_callback(), 0);
    assert!(conn.password.is_none());
    assert_eq!(conn.sm_state, Some("sm"));
    assert_eq!(conn.timed.count(), 1);
    assert_eq!(conn.stanza.count(), 1);
    assert_eq!(conn.clear_sm_callback(), 1);
    assert_eq!(conn.timed.count(), 1);
}

#[test]
fn debug_entries_of_handlers() {
    let mut conn: Handlers = ConnectionHandlers::new();
    conn.timed_handler_add(1, 0x10).unwrap();
    conn.set_password_callback("pw");
    let entries = conn.debug_entries();
    let expected = [
        ("connection", "unset"),
        ("timed", "1 handlers"),
        ("stanza", "0 handlers"),
        ("cert_fail_handler_id", "unset"),
        ("sockopt_handler_id", "unset"),
        ("password", "handler set"),
        ("sm_state", "no handler"),
    ];
    assert_eq!(entries.len(), expected.len());
    for (got, want) in entries.iter().zip(expected.iter()) {
        assert_eq!(got.0, want.0);
        assert_eq!(got.1, want.1);
    }
}

fn connect_with_jid(conn: &mut Handlers, handler: &'static str, code: i32) -> Result<(), Error> {
    connect_precheck(Some("test-JID@127.50.60.70"))?;
    let old = conn.set_connection_handler(handler);
    conn.finish_connect(code, old)
}

fn disconnect_event(error: i32) -> ConnectionEvent<'static, ()> {
    ConnectionEvent::from_raw(xmpp_conn_event_t::XMPP_CONN_DISCONNECT, error, None)
}

#[test]
fn mod_conn_client() {
    for handler in ["ref closure", "own closure"] {
        let mut conn: Handlers = ConnectionHandlers::new();
        assert_eq!(connect_with_jid(&mut conn, handler, 0), Ok(()));
        assert_eq!(conn.connection, Some(handler));
        assert!(matches!(disconnect_event(111), ConnectionEvent::Disconnect(_)));
    }
}

#[test]
fn tests_conn_client() {
    let mut conn: Handlers = ConnectionHandlers::new();
    assert_eq!(connect_with_jid(&mut conn, "first", 0), Ok(()));
    assert_eq!(connect_with_jid(&mut conn, "second", -2), Err(Error::InvalidOperation));
    assert_eq!(conn.connection, Some("first"));
    assert!(matches!(disconnect_event(0), ConnectionEvent::Disconnect(None)));
}

#[test]
fn mod_conn_raw() {
    for handler in ["ref closure", "own closure"] {
        let mut conn: Handlers = ConnectionHandlers::new();
        assert_eq!(connect_with_jid(&mut conn, handler, 0), Ok(()));
        assert_eq!(conn.connection, Some(handler));
        assert!(matches!(disconnect_event(111), ConnectionEvent::Disconnect(Some(_))));
    }
}

#[test]
fn tests_conn_raw() {
    let mut conn: Handlers = ConnectionHandlers::new();
    assert_eq!(connect_with_jid(&mut conn, "raw", -1), Err(Error::MemoryError));
    assert_eq!(conn.connection, None);
    assert_eq!(connect_with_jid(&mut conn, "raw", 0), Ok(()));
    assert_eq!(conn.connection, Some("raw"));
}

#[test]
fn mod_handler() {
    let mut conn: Handlers = ConnectionHandlers::new();
    assert_eq!(connect_with_jid(&mut conn, "default", 0), Ok(()));
    let handle = conn.handler_add(1, 0x500).expect("Can't add handler");
    assert_eq!(conn.stanza_handler_done(0x500, HandlerResult::KeepHandler), 1);
    assert_eq!(conn.stanza.count(), 1);
    assert_eq!(conn.handler_delete(handle), 1);
    assert_eq!(conn.stanza.count(), 0);
    conn.handler_add(1, 0x500).expect("Can't add handler");
    conn.handler_add(2, 0x600).expect("Can't add handler");
    assert_eq!(conn.handlers_clear().len(), 2);
    assert_eq!(conn.connection, Some("default"));
}

#[test]
fn tests_handler() {
    let mut conn: Handlers = ConnectionHandlers::new();
    conn.handler_add(1, 0x500).expect("Can't add handler");
    assert_eq!(conn.stanza_handler_done(0x500, HandlerResult::KeepHandler), 1);
    assert_eq!(conn.stanza_handler_done(0x500, HandlerResult::RemoveHandler), 0);
    assert_eq!(conn.stanza.count(), 0);
}

#[test]
fn mod_zero_sized_handlers() {
    let mut conn: Handlers = ConnectionHandlers::new();
    let zero_sized = 0x700;
    let incrementer = 0x800;
    conn.handler_add(1, zero_sized).expect("Can't add handler");
    conn.handler_add(2, incrementer).expect("Can't add handler");
    conn.timed_handler_add(3, 0x900).expect("Can't add timed handler");
    assert_eq!(conn.stanza_handler_done(zero_sized, HandlerResult::RemoveHandler), 0);
    assert_eq!(conn.stanza.count(), 1);
    assert!(conn.stanza.validate(incrementer).is_some());
    assert_eq!(conn.timed_handler_done(0x900, HandlerResult::RemoveHandler), 0);
    assert_eq!(conn.timed.count(), 0);
}

#[test]
fn tests_zero_sized_handlers() {
    let mut conn: Handlers = ConnectionHandlers::new();
    conn.handler_add(1, 0x700).expect("Can't add handler");
    assert!(conn.handler_add(1, 0x700).is_none());
    conn.handler_add(2, 0x800).expect("Can't add handler");
    assert_eq!(conn.stanza.count(), 2);
}

fn count_events(events: &[ConnectionEvent<'static, ()>]) -> (u32, u32, u32) {
    let mut flags = (0, 0, 0);
    for event in events {
        match event {
            ConnectionEvent::Connect => flags.0 += 1,
            ConnectionEvent::RawConnect => flags.1 += 1,
            ConnectionEvent::Disconnect(_) => flags.2 += 1,
        }
    }
    flags
}

#[test]
fn mod_connection_handler() {
    let events = [
        ConnectionEvent::from_raw(xmpp_conn_event_t::XMPP_CONN_CONNECT, 0, None),
        disconnect_event(0),
    ];
    assert_eq!(count_events(&events), (1, 0, 1));
}

#[test]
fn tests_connection_handler() {
    let mut conn: Handlers = ConnectionHandlers::new();
    assert_eq!(connect_with_jid(&mut conn, "handler", 0), Ok(()));
    // a second attempt before the disconnect is refused and the first handler stays
    assert_eq!(connect_with_jid(&mut conn, "other", -2), Err(Error::InvalidOperation));
    assert_eq!(conn.connection, Some("handler"));
    let events = [
        ConnectionEvent::from_raw(xmpp_conn_event_t::XMPP_CONN_CONNECT, 0, None),
        disconnect_event(0),
    ];
    assert_eq!(count_events(&events), (1, 0, 1));
}
