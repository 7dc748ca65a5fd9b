//! The decisions a connection makes around its calls into the C library: which handlers it
//! keeps, when a connection attempt may start, how callbacks answer the library.
use std::collections::HashMap;

use vstd::prelude::*;
use vstd::string::*;

use crate::error::{
    error_of_code, into_result, is_status_code, result_of_code, stream_error_text, Error,
    StreamError,
};
use crate::handlers::{
    has_addr, set_handler, stored, with_extra_is, without_addr, BoxedHandlers, CbAddr, FatHandler,
    HandlerId, HandlerResult, IdHandlerId, TimedHandlerId,
};
use crate::ffi_types::{bytes_nul_free, nul_free};
use crate::decimal::{decimal, decimal_text};
use crate::types::{xmpp_conn_event_t, XMPP_EOK};
use vstd::utf8::encode_utf8;

verus! {

broadcast use vstd::std_specs::hash::group_hash_axioms;

/// The handlers a connection owns. The C library only keeps the address of the C callback and
/// an opaque pointer; the handlers themselves live here.
pub struct ConnectionHandlers<C, T, S, P, M> {
    /// The connection event handler.
    pub connection: Option<C>,
    /// Timed handlers.
    pub timed: BoxedHandlers<T, ()>,
    /// Stanza handlers; the extra data is the stanza id for handlers added by id.
    pub stanza: BoxedHandlers<S, Option<String>>,
    /// Key of this connection's certificate failure handler in the shared table.
    pub cert_fail_handler_id: Option<CbAddr>,
    /// Key of this connection's socket option handler in the shared table.
    pub sockopt_handler_id: Option<CbAddr>,
    /// The password callback.
    pub password: Option<P>,
    /// The stream management state callback.
    pub sm_state: Option<M>,
}

impl<C, T, S, P, M> ConnectionHandlers<C, T, S, P, M> {
    /// The callbacks kept outside the handler tables are those of `other`: the password and
    /// stream management callbacks and the keys into the shared certificate failure and
    /// socket option tables.
    pub open spec fn keeps_slots(self, other: Self) -> bool {
        &&& self.cert_fail_handler_id == other.cert_fail_handler_id
        &&& self.sockopt_handler_id == other.sockopt_handler_id
        &&& self.password == other.password
        &&& self.sm_state == other.sm_state
    }

    /// The handlers with `connection` as the connection event handler and everything else
    /// unchanged.
    pub open spec fn with_connection(self, connection: Option<C>) -> Self {
        ConnectionHandlers {
            connection,
            timed: self.timed,
            stanza: self.stanza,
            cert_fail_handler_id: self.cert_fail_handler_id,
            sockopt_handler_id: self.sockopt_handler_id,
            password: self.password,
            sm_state: self.sm_state,
        }
    }

    /// The handlers once a connection attempt settles with status `code`: unchanged on success,
    /// with `previous` put back as the connection event handler on failure.
    pub open spec fn connect_settled(self, code: i32, previous: Option<C>) -> Self {
        if code == XMPP_EOK {
            self
        } else {
            self.with_connection(previous)
        }
    }

    /// A connection with no handlers.
    pub fn new() -> (r: Self)
        ensures
            r.connection is None,
            r.timed@ == Seq::<FatHandler<T, ()>>::empty(),
            r.stanza@ == Seq::<FatHandler<S, Option<String>>>::empty(),
            r.cert_fail_handler_id is None,
            r.sockopt_handler_id is None,
            r.password is None,
            r.sm_state is None,
    {
        ConnectionHandlers {
            connection: None,
            timed: BoxedHandlers::new(4),
            stanza: BoxedHandlers::new(4),
            cert_fail_handler_id: None,
            sockopt_handler_id: None,
            password: None,
            sm_state: None,
        }
    }

    /// Adds a timed handler called through the C callback at `cb_addr`.
    ///
    /// Returns `None`, and keeps nothing, when a timed handler with the same callback is
    /// already registered.
    pub fn timed_handler_add(&mut self, handler: T, cb_addr: CbAddr) -> (r: Option<TimedHandlerId>)
        ensures
            r == if has_addr(old(self).timed@, cb_addr) {
                None
            } else {
                Some(TimedHandlerId(cb_addr))
            },
            final(self).timed@ == stored(old(self).timed@, FatHandler { handler, cb_addr, extra: () }),
            final(self).stanza@ == old(self).stanza@,
            final(self).connection == old(self).connection,
            final(self).keeps_slots(*old(self)),
    {
        if self.timed.store(FatHandler { handler, cb_addr, extra: () }) {
            Some(TimedHandlerId(cb_addr))
        } else {
            None
        }
    }

    /// Removes the timed handler `handler_id` names, returning how many handlers were removed.
    pub fn timed_handler_delete(&mut self, handler_id: TimedHandlerId) -> (r: usize)
        ensures
            final(self).timed@ == without_addr(old(self).timed@, handler_id.0),
            r == if has_addr(old(self).timed@, handler_id.0) {
                1usize
            } else {
                0usize
            },
            final(self).stanza@ == old(self).stanza@,
            final(self).connection == old(self).connection,
            final(self).keeps_slots(*old(self)),
    {
        self.timed.drop_handler(handler_id.0)
    }

    /// Removes every timed handler, returning them so that each can be unregistered from the
    /// C library; their number is what the connection reports as removed.
    pub fn timed_handlers_clear(&mut self) -> (r: Vec<FatHandler<T, ()>>)
        ensures
            r@ == old(self).timed@,
            final(self).timed@ == Seq::<FatHandler<T, ()>>::empty(),
            final(self).stanza@ == old(self).stanza@,
            final(self).connection == old(self).connection,
            final(self).keeps_slots(*old(self)),
    {
        self.timed.take_all()
    }

    /// Adds a stanza handler called through the C callback at `cb_addr`.
    ///
    /// Returns `None`, and keeps nothing, when a stanza handler with the same callback is
    /// already registered (whether added by `handler_add` or `id_handler_add`).
    pub fn handler_add(&mut self, handler: S, cb_addr: CbAddr) -> (r: Option<HandlerId>)
        ensures
            r == if has_addr(old(self).stanza@, cb_addr) {
                None
            } else {
                Some(HandlerId(cb_addr))
            },
            final(self).stanza@ == stored(
                old(self).stanza@,
                FatHandler { handler, cb_addr, extra: None },
            ),
            final(self).timed@ == old(self).timed@,
            final(self).connection == old(self).connection,
            final(self).keeps_slots(*old(self)),
    {
        if self.stanza.store(FatHandler { handler, cb_addr, extra: None }) {
            Some(HandlerId(cb_addr))
        } else {
            None
        }
    }

    /// Removes the stanza handler `handler_id` names, returning how many handlers were removed.
    pub fn handler_delete(&mut self, handler_id: HandlerId) -> (r: usize)
        ensures
            final(self).stanza@ == without_addr(old(self).stanza@, handler_id.0),
            r == if has_addr(old(self).stanza@, handler_id.0) {
                1usize
            } else {
                0usize
            },
            final(self).timed@ == old(self).timed@,
            final(self).connection == old(self).connection,
            final(self).keeps_slots(*old(self)),
    {
        self.stanza.drop_handler(handler_id.0)
    }

    /// Removes every stanza handler added by `handler_add`, keeping those added by
    /// `id_handler_add`; returns the removed ones so that each can be unregistered from the C
    /// library.
    pub fn handlers_clear(&mut self) -> (r: Vec<FatHandler<S, Option<String>>>)
        ensures
            r@ == with_extra_is(old(self).stanza@, false),
            final(self).stanza@ == with_extra_is(old(self).stanza@, true),
            final(self).timed@ == old(self).timed@,
            final(self).connection == old(self).connection,
            final(self).keeps_slots(*old(self)),
    {
        self.stanza.take_without_extra()
    }

    /// Adds a handler for stanzas with the given id, called through the C callback at
    /// `cb_addr`.
    ///
    /// Returns `None`, and keeps nothing, when a stanza handler with the same callback is
    /// already registered.
    pub fn id_handler_add(&mut self, handler: S, cb_addr: CbAddr, id: String) -> (r: Option<IdHandlerId>)
        ensures
            r == if has_addr(old(self).stanza@, cb_addr) {
                None
            } else {
                Some(IdHandlerId(cb_addr))
            },
            final(self).stanza@ == stored(
                old(self).stanza@,
                FatHandler { handler, cb_addr, extra: Some(id) },
            ),
            final(self).timed@ == old(self).timed@,
            final(self).connection == old(self).connection,
            final(self).keeps_slots(*old(self)),
    {
        if self.stanza.store(FatHandler { handler, cb_addr, extra: Some(id) }) {
            Some(IdHandlerId(cb_addr))
        } else {
            None
        }
    }

    /// Removes the id handler `handler_id` names.
    ///
    /// Returns the id the handler was registered for, when it is registered (the C library
    /// needs it to unregister the handler), and how many handlers were removed.
    pub fn id_handler_delete(&mut self, handler_id: IdHandlerId) -> (r: (Option<String>, usize))
        requires
            forall|i: int|
                0 <= i < old(self).stanza@.len() && #[trigger] old(self).stanza@[i].cb_addr
                    == handler_id.0 ==> old(self).stanza@[i].extra is Some,
        ensures
            match r.0 {
                Some(id) => exists|i: int|
                    0 <= i < old(self).stanza@.len() && old(self).stanza@[i].cb_addr == handler_id.0
                        && #[trigger] old(self).stanza@[i].extra == Some(id),
                None => !has_addr(old(self).stanza@, handler_id.0),
            },
            final(self).stanza@ == without_addr(old(self).stanza@, handler_id.0),
            r.1 == if has_addr(old(self).stanza@, handler_id.0) {
                1usize
            } else {
                0usize
            },
            final(self).timed@ == old(self).timed@,
            final(self).connection == old(self).connection,
            final(self).keeps_slots(*old(self)),
    {
        let id = match self.stanza.validate(handler_id.0) {
            Some(fat_handler) => match &fat_handler.extra {
                Some(id) => Some(id.clone()),
                None => None,
            },
            None => None,
        };
        let removed = self.stanza.drop_handler(handler_id.0);
        (id, removed)
    }

    /// Removes every stanza handler added by `id_handler_add`, keeping those added by
    /// `handler_add`; returns the removed ones so that each can be unregistered from the C
    /// library.
    pub fn id_handlers_clear(&mut self) -> (r: Vec<FatHandler<S, Option<String>>>)
        ensures
            r@ == with_extra_is(old(self).stanza@, true),
            final(self).stanza@ == with_extra_is(old(self).stanza@, false),
            final(self).timed@ == old(self).timed@,
            final(self).connection == old(self).connection,
            final(self).keeps_slots(*old(self)),
    {
        self.stanza.take_with_extra()
    }

    /// Reports to the C library how a timed handler ran: a handler that asks to be removed is
    /// dropped from the table.
    pub fn timed_handler_done(&mut self, cb_addr: CbAddr, res: HandlerResult) -> (r: i32)
        ensures
            r == res.code_spec(),
            final(self).timed@ == match res {
                HandlerResult::RemoveHandler => without_addr(old(self).timed@, cb_addr),
                HandlerResult::KeepHandler => old(self).timed@,
            },
            final(self).stanza@ == old(self).stanza@,
            final(self).connection == old(self).connection,
            final(self).keeps_slots(*old(self)),
    {
        match res {
            HandlerResult::RemoveHandler => {
                self.timed.drop_handler(cb_addr);
            },
            HandlerResult::KeepHandler => {},
        }
        res.to_c_int()
    }

    /// Reports to the C library how a stanza handler ran: a handler that asks to be removed is
    /// dropped from the table.
    pub fn stanza_handler_done(&mut self, cb_addr: CbAddr, res: HandlerResult) -> (r: i32)
        ensures
            r == res.code_spec(),
            final(self).stanza@ == match res {
                HandlerResult::RemoveHandler => without_addr(old(self).stanza@, cb_addr),
                HandlerResult::KeepHandler => old(self).stanza@,
            },
            final(self).timed@ == old(self).timed@,
            final(self).connection == old(self).connection,
            final(self).keeps_slots(*old(self)),
    {
        match res {
            HandlerResult::RemoveHandler => {
                self.stanza.drop_handler(cb_addr);
            },
            HandlerResult::KeepHandler => {},
        }
        res.to_c_int()
    }

    /// Installs the connection event handler for a connection attempt, returning the one it
    /// replaces so that a failed attempt can restore it.
    pub fn set_connection_handler(&mut self, handler: C) -> (r: Option<C>)
        ensures
            r == old(self).connection,
            final(self).connection == Some(handler),
            final(self).timed@ == old(self).timed@,
            final(self).stanza@ == old(self).stanza@,
            final(self).keeps_slots(*old(self)),
            *final(self) == old(self).with_connection(Some(handler)),
    {
        set_handler(&mut self.connection, handler)
    }

    /// Settles a connection attempt from the status code of the C library: on success the new
    /// handler stays, on failure the previous handler is put back and the error is returned.
    pub fn finish_connect(&mut self, code: i32, old_handler: Option<C>) -> (r: Result<(), Error>)
        requires
            is_status_code(code),
        ensures
            r == result_of_code(code),
            code == XMPP_EOK ==> final(self).connection == old(self).connection,
            code != XMPP_EOK ==> final(self).connection == old_handler,
            final(self).timed@ == old(self).timed@,
            final(self).stanza@ == old(self).stanza@,
            final(self).keeps_slots(*old(self)),
            *final(self) == old(self).connect_settled(code, old_handler),
    {
        let res = into_result(code);
        match res {
            Ok(()) => {},
            Err(_) => {
                self.connection = old_handler;
            },
        }
        res
    }

    /// Installs the password callback, returning the one it replaces.
    pub fn set_password_callback(&mut self, handler: P) -> (r: Option<P>)
        ensures
            r == old(self).password,
            final(self).password == Some(handler),
            final(self).connection == old(self).connection,
            final(self).timed@ == old(self).timed@,
            final(self).stanza@ == old(self).stanza@,
            final(self).cert_fail_handler_id == old(self).cert_fail_handler_id,
            final(self).sockopt_handler_id == old(self).sockopt_handler_id,
            final(self).sm_state == old(self).sm_state,
    {
        set_handler(&mut self.password, handler)
    }

    /// Removes the password callback, returning how many callbacks were removed.
    pub fn clear_password_callback(&mut self) -> (r: usize)
        ensures
            r == if old(self).password is Some {
                1usize
            } else {
                0usize
            },
            final(self).password is None,
            final(self).connection == old(self).connection,
            final(self).timed@ == old(self).timed@,
            final(self).stanza@ == old(self).stanza@,
            final(self).cert_fail_handler_id == old(self).cert_fail_handler_id,
            final(self).sockopt_handler_id == old(self).sockopt_handler_id,
            final(self).sm_state == old(self).sm_state,
    {
        match self.password.take() {
            Some(_) => 1,
            None => 0,
        }
    }

    /// Installs the stream management state callback, returning the one it replaces.
    pub fn set_sm_callback(&mut self, handler: M) -> (r: Option<M>)
        ensures
            r == old(self).sm_state,
            final(self).sm_state == Some(handler),
            final(self).connection == old(self).connection,
            final(self).timed@ == old(self).timed@,
            final(self).stanza@ == old(self).stanza@,
            final(self).cert_fail_handler_id == old(self).cert_fail_handler_id,
            final(self).sockopt_handler_id == old(self).sockopt_handler_id,
            final(self).password == old(self).password,
    {
        set_handler(&mut self.sm_state, handler)
    }

    /// Removes the stream management state callback, returning how many callbacks were removed.
    pub fn clear_sm_callback(&mut self) -> (r: usize)
        ensures
            r == if old(self).sm_state is Some {
                1usize
            } else {
                0usize
            },
            final(self).sm_state is None,
            final(self).connection == old(self).connection,
            final(self).timed@ == old(self).timed@,
            final(self).stanza@ == old(self).stanza@,
            final(self).cert_fail_handler_id == old(self).cert_fail_handler_id,
            final(self).sockopt_handler_id == old(self).sockopt_handler_id,
            final(self).password == old(self).password,
    {
        match self.sm_state.take() {
            Some(_) => 1,
            None => 0,
        }
    }
}

/// The debug text of a connection's handlers, from whether a connection event handler is set,
/// the numbers of timed and stanza handlers and whether the password and stream management
/// callbacks are set.
///
/// The entries for the certificate failure and socket option handlers report whether the
/// connection event handler is set.
pub open spec fn handlers_debug_text(connection: bool, timed: int, stanza: int, password: bool, sm_state: bool) -> Seq<char> {
    let conn_text = if connection { "\"set\""@ } else { "\"unset\""@ };
    "FatHandlers { connection: "@ + conn_text
        + ", timed: \""@ + decimal_text(timed) + " handlers\""@
        + ", stanza: \""@ + decimal_text(stanza) + " handlers\""@
        + ", cert_fail_handler_id: "@ + conn_text
        + ", sockopt_handler_id: "@ + conn_text
        + ", password: "@ + (if password { "\"handler set\""@ } else { "\"no handler\""@ })
        + ", sm_state: "@ + (if sm_state { "\"handler set\""@ } else { "\"no handler\""@ })
        + " }"@
}

impl<C, T, S, P, M> ConnectionHandlers<C, T, S, P, M> {
    /// The debug text of the handlers.
    pub fn describe(&self) -> (r: String)
        ensures
            r@ == handlers_debug_text(
                self.connection is Some,
                self.timed@.len() as int,
                self.stanza@.len() as int,
                self.password is Some,
                self.sm_state is Some,
            ),
    {
        let conn_text = if self.connection.is_some() { "\"set\"" } else { "\"unset\"" };
        let mut out = String::from_str("FatHandlers { connection: ");
        out.append(conn_text);
        out.append(", timed: \"");
        let timed = decimal(self.timed.count() as i128);
        out.append(timed.as_str());
        out.append(" handlers\"");
        out.append(", stanza: \"");
        let stanza = decimal(self.stanza.count() as i128);
        out.append(stanza.as_str());
        out.append(" handlers\"");
        out.append(", cert_fail_handler_id: ");
        out.append(conn_text);
        out.append(", sockopt_handler_id: ");
        out.append(conn_text);
        out.append(", password: ");
        out.append(if self.password.is_some() { "\"handler set\"" } else { "\"no handler\"" });
        out.append(", sm_state: ");
        out.append(if self.sm_state.is_some() { "\"handler set\"" } else { "\"no handler\"" });
        out.append(" }");
        out
    }
}

/// The fields of the debug output of a connection's handlers, each a name and its text, in
/// the order `describe` writes them.
pub open spec fn handlers_debug_entries(
    connection: bool,
    timed: int,
    stanza: int,
    password: bool,
    sm_state: bool,
) -> Seq<(Seq<char>, Seq<char>)> {
    let conn_text = if connection { "set"@ } else { "unset"@ };
    seq![
        ("connection"@, conn_text),
        ("timed"@, decimal_text(timed) + " handlers"@),
        ("stanza"@, decimal_text(stanza) + " handlers"@),
        ("cert_fail_handler_id"@, conn_text),
        ("sockopt_handler_id"@, conn_text),
        ("password"@, if password { "handler set"@ } else { "no handler"@ }),
        ("sm_state"@, if sm_state { "handler set"@ } else { "no handler"@ }),
    ]
}

impl<C, T, S, P, M> ConnectionHandlers<C, T, S, P, M> {
    /// The fields of the debug output of the handlers, each a name and its text.
    pub fn debug_entries(&self) -> (r: Vec<(&'static str, String)>)
        ensures
            r@.len() == 7,
            forall|i: int|
                0 <= i < 7 ==> (#[trigger] r@[i].0@, r@[i].1@) == handlers_debug_entries(
                    self.connection is Some,
                    self.timed@.len() as int,
                    self.stanza@.len() as int,
                    self.password is Some,
                    self.sm_state is Some,
                )[i],
    {
        let conn_text = if self.connection.is_some() { "set" } else { "unset" };
        let mut timed = decimal(self.timed.count() as i128);
        timed.append(" handlers");
        let mut stanza = decimal(self.stanza.count() as i128);
        stanza.append(" handlers");
        let password = if self.password.is_some() { "handler set" } else { "no handler" };
        let sm_state = if self.sm_state.is_some() { "handler set" } else { "no handler" };
        let mut out: Vec<(&'static str, String)> = Vec::new();
        out.push(("connection", String::from_str(conn_text)));
        out.push(("timed", timed));
        out.push(("stanza", stanza));
        out.push(("cert_fail_handler_id", String::from_str(conn_text)));
        out.push(("sockopt_handler_id", String::from_str(conn_text)));
        out.push(("password", String::from_str(password)));
        out.push(("sm_state", String::from_str(sm_state)));
        out
    }
}

/// A connection attempt that authenticates needs a JID: without one it fails with
/// `InvalidOperation` before the C library is asked.
pub fn connect_precheck(jid: Option<&str>) -> (r: Result<(), Error>)
    ensures
        r == match jid {
            None => Err::<(), Error>(Error::InvalidOperation),
            Some(_) => Ok::<(), Error>(()),
        },
{
    match jid {
        None => Err(Error::InvalidOperation),
        Some(_) => Ok(()),
    }
}

/// Stores `handler` under `key` in a table shared by all connections and makes it this
/// connection's handler; the handler this connection had before is removed from the table.
///
/// When the connection's previous key equals `key`, the removal takes the handler just stored.
pub fn set_keyed_handler<H>(
    handlers: &mut HashMap<CbAddr, H>,
    current: &mut Option<CbAddr>,
    key: CbAddr,
    handler: H,
)
    ensures
        *final(current) == Some(key),
        final(handlers)@ == match *old(current) {
            Some(prev) => old(handlers)@.insert(key, handler).remove(prev),
            None => old(handlers)@.insert(key, handler),
        },
{
    handlers.insert(key, handler);
    let prev = current.take();
    *current = Some(key);
    match prev {
        Some(prev_key) => {
            handlers.remove(&prev_key);
        },
        None => {},
    }
}

/// Setting a shared-table handler under a new key makes it the only one of this connection's
/// handlers left in the table: the previous one is gone and every other connection's entry is
/// untouched. Setting it again under the key it already has takes it out of the table.
pub proof fn law_keyed_handler_replaces<H>(m: Map<CbAddr, H>, prev: CbAddr, key: CbAddr, h: H, other: CbAddr)
    ensures
        prev != key ==> m.insert(key, h).remove(prev).contains_key(key) && m.insert(key, h).remove(prev)[key] == h
            && !m.insert(key, h).remove(prev).contains_key(prev),
        other != prev && other != key ==> (m.insert(key, h).remove(prev).contains_key(other) == m.contains_key(other)),
        other != prev && other != key && m.contains_key(other) ==> m.insert(key, h).remove(prev)[other] == m[other],
        !m.insert(key, h).remove(key).contains_key(key),
{
}

/// Removes this connection's handler from a shared table, when it has one.
pub fn release_keyed_handler<H>(handlers: &mut HashMap<CbAddr, H>, current: &mut Option<CbAddr>)
    ensures
        *final(current) is None,
        final(handlers)@ == match *old(current) {
            Some(key) => old(handlers)@.remove(key),
            None => old(handlers)@,
        },
{
    match current.take() {
        Some(key) => {
            handlers.remove(&key);
        },
        None => {},
    }
}

/// Events reported to a connection handler.
#[derive(Debug, Clone)]
pub enum ConnectionEvent<'t, S> {
    RawConnect,
    Connect,
    Disconnect(Option<ConnectionError<'t, S>>),
}

/// Why a connection ended: the C library's error number and the stream error, when the server
/// sent one.
#[derive(Debug, Clone)]
pub struct ConnectionError<'t, S> {
    pub error: i32,
    pub stream_error: Option<StreamError<'t, S>>,
}

/// The error carried by a disconnect: none when the C library reports neither an error number
/// nor a stream error.
pub open spec fn disconnect_error<'t, S>(error: i32, stream_error: Option<StreamError<'t, S>>) -> Option<ConnectionError<'t, S>> {
    if error == 0 && stream_error is None {
        None
    } else {
        Some(ConnectionError { error, stream_error })
    }
}

/// The message of a connection error: the stream error's message when the server sent one,
/// else the error number.
pub open spec fn connection_error_text<'t, S>(e: ConnectionError<'t, S>) -> Seq<char> {
    match e.stream_error {
        Some(se) => stream_error_text(
            se.typ,
            match se.text {
                None => None,
                Some(t) => Some(t@),
            },
        ),
        None => "Error code: "@ + decimal_text(e.error as int),
    }
}

impl<'t, S> ConnectionError<'t, S> {
    /// The message of this error.
    pub fn to_string(&self) -> (r: String)
        ensures
            r@ == connection_error_text(*self),
    {
        match &self.stream_error {
            Some(se) => se.to_string(),
            None => {
                let mut out = String::from_str("Error code: ");
                let code = decimal(self.error as i128);
                out.append(code.as_str());
                out
            },
        }
    }
}

/// The message of a connection event.
pub open spec fn connection_event_text<'t, S>(e: ConnectionEvent<'t, S>) -> Seq<char> {
    match e {
        ConnectionEvent::RawConnect => "Raw connect"@,
        ConnectionEvent::Connect => "Connect"@,
        ConnectionEvent::Disconnect(None) => "Disconnect"@,
        ConnectionEvent::Disconnect(Some(err)) => "Disconnect, error: "@ + connection_error_text(err),
    }
}

impl<'t, S> ConnectionEvent<'t, S> {
    /// The message of this event.
    pub fn to_string(&self) -> (r: String)
        ensures
            r@ == connection_event_text(*self),
    {
        match self {
            ConnectionEvent::RawConnect => String::from_str("Raw connect"),
            ConnectionEvent::Connect => String::from_str("Connect"),
            ConnectionEvent::Disconnect(None) => String::from_str("Disconnect"),
            ConnectionEvent::Disconnect(Some(err)) => {
                let mut out = String::from_str("Disconnect, error: ");
                let text = err.to_string();
                out.append(text.as_str());
                out
            },
        }
    }

    /// The event for what the C library reports to the connection handler.
    ///
    /// The C library never reports `XMPP_CONN_FAIL`.
    pub fn from_raw(event: xmpp_conn_event_t, error: i32, stream_error: Option<StreamError<'t, S>>) -> (r: ConnectionEvent<'t, S>)
        requires
            event != xmpp_conn_event_t::XMPP_CONN_FAIL,
        ensures
            r == match event {
                xmpp_conn_event_t::XMPP_CONN_RAW_CONNECT => ConnectionEvent::RawConnect,
                xmpp_conn_event_t::XMPP_CONN_CONNECT => ConnectionEvent::Connect,
                _ => ConnectionEvent::Disconnect(disconnect_error(error, stream_error)),
            },
    {
        match event {
            xmpp_conn_event_t::XMPP_CONN_RAW_CONNECT => ConnectionEvent::RawConnect,
            xmpp_conn_event_t::XMPP_CONN_CONNECT => ConnectionEvent::Connect,
            _ => {
                if error == 0 && stream_error.is_none() {
                    ConnectionEvent::Disconnect(None)
                } else {
                    ConnectionEvent::Disconnect(Some(ConnectionError { error, stream_error }))
                }
            },
        }
    }
}

/// Keepalive timeout or interval, in whole seconds, as the C library takes it: values that do
/// not fit a C `int` become the largest `int`.
pub fn keepalive_secs(secs: u64) -> (r: i32)
    ensures
        r == if secs <= i32::MAX as u64 {
            secs as int
        } else {
            i32::MAX as int
        },
{
    if secs <= i32::MAX as u64 {
        secs as i32
    } else {
        i32::MAX
    }
}

/// Period of a timed handler, in milliseconds, as the C library takes it: values above `max`,
/// the largest C `unsigned long` of the target, become `max`.
pub fn timed_period_millis(millis: u128, max: u64) -> (r: u64)
    ensures
        r == if millis <= max as u128 {
            millis as int
        } else {
            max as int
        },
{
    if millis <= max as u128 {
        millis as u64
    } else {
        max
    }
}

/// Event loop timeout, in milliseconds, as the C library takes it: the value is cut to the low
/// 64 bits.
pub fn timeout_millis(millis: u128) -> (r: u64)
    ensures
        r == millis % 0x1_0000_0000_0000_0000u128,
{
    let r = millis as u64;
    assert(r == millis % 0x1_0000_0000_0000_0000u128) by (bit_vector)
        requires
            r == millis as u64,
    ;
    r
}

/// Room for a password in the C library's buffer of `pw_max` bytes, one byte being kept for
/// the terminating NUL.
pub open spec fn max_password_len(pw_max: usize) -> int {
    if pw_max == 0 {
        0
    } else {
        pw_max - 1
    }
}

/// The longest password, in bytes, that fits the C library's buffer of `pw_max` bytes; this
/// is what the user's password callback is told.
pub fn password_room(pw_max: usize) -> (r: usize)
    ensures
        r == max_password_len(pw_max),
{
    pw_max.saturating_sub(1)
}

/// The password callback's answer is accepted: it fits the buffer and holds no NUL byte.
pub open spec fn password_fits(pw_max: usize, password: Seq<char>) -> bool {
    nul_free(encode_utf8(password)) && encode_utf8(password).len() <= max_password_len(pw_max)
}

/// What the password callback writes to the C library's buffer of `pw_max` bytes and the code
/// it returns, given the password the user's callback produced.
///
/// An accepted password is written without its NUL and the code is its length in bytes (the
/// largest `int` for longer ones); a missing, too long or NUL-holding password writes nothing
/// and the code is `-1`.
pub fn password_reply(pw_max: usize, password: Option<String>) -> (r: (i32, Vec<u8>))
    ensures
        match password {
            Some(p) if password_fits(pw_max, p@) => {
                &&& r.1@ == encode_utf8(p@)
                &&& r.0 == if encode_utf8(p@).len() <= i32::MAX {
                    encode_utf8(p@).len() as int
                } else {
                    i32::MAX as int
                }
            },
            _ => r.0 == -1 && r.1@ == Seq::<u8>::empty(),
        },
{
    let max_password_len = password_room(pw_max);
    match password {
        Some(p) => {
            let bytes = p.as_str().as_bytes();
            if bytes_nul_free(bytes) && bytes.len() <= max_password_len {
                let len = bytes.len();
                let code: i32 = if len <= i32::MAX as usize {
                    len as i32
                } else {
                    i32::MAX
                };
                (code, vstd::slice::slice_to_vec(bytes))
            } else {
                (-1, Vec::new())
            }
        },
        None => (-1, Vec::new()),
    }
}

/// A connection attempt that fails leaves all the handlers exactly as they were before it:
/// settling with an error code after `set_connection_handler` puts back the handler it
/// returned. An attempt that succeeds keeps the new handler and changes nothing else.
pub proof fn law_failed_connect_restores<C, T, S, P, M>(
    before: ConnectionHandlers<C, T, S, P, M>,
    handler: C,
    code: i32,
)
    requires
        is_status_code(code),
    ensures
        code != XMPP_EOK ==> before.with_connection(Some(handler)).connect_settled(code, before.connection)
            == before,
        code != XMPP_EOK ==> result_of_code(code) == Err::<(), Error>(error_of_code(code)),
        code == XMPP_EOK ==> before.with_connection(Some(handler)).connect_settled(code, before.connection)
            == before.with_connection(Some(handler)),
{
}

/// Clearing stanza handlers splits them by kind: `handlers_clear` takes exactly the handlers
/// added by `handler_add` and leaves every handler added by `id_handler_add`, and
/// `id_handlers_clear` the reverse.
pub proof fn law_clear_by_kind<S>(s: Seq<FatHandler<S, Option<String>>>, i: int)
    requires
        0 <= i < s.len(),
    ensures
        s[i].extra is None ==> with_extra_is(s, false).contains(s[i]) && !with_extra_is(s, true).contains(s[i]),
        s[i].extra is Some ==> with_extra_is(s, true).contains(s[i]) && !with_extra_is(s, false).contains(s[i]),
{
    let p_plain = |h: FatHandler<S, Option<String>>| (h.extra is Some) == false;
    let p_id = |h: FatHandler<S, Option<String>>| (h.extra is Some) == true;
    if s[i].extra is None {
        s.lemma_filter_contains(p_plain, i);
        if with_extra_is(s, true).contains(s[i]) {
            let k = choose|k: int| 0 <= k < s.filter(p_id).len() && s.filter(p_id)[k] == s[i];
            s.lemma_filter_pred(p_id, k);
        }
    } else {
        s.lemma_filter_contains(p_id, i);
        if with_extra_is(s, false).contains(s[i]) {
            let k = choose|k: int| 0 <= k < s.filter(p_plain).len() && s.filter(p_plain)[k] == s[i];
            s.lemma_filter_pred(p_plain, k);
        }
    }
}

} // verus!
