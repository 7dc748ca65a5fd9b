//! Bookkeeping of the callbacks a connection hands to the C library.
//!
//! The C library identifies a callback by the address of the function it calls. A table of
//! handlers therefore holds at most one handler per address: adding a second handler with an
//! address that is already present is refused, and deleting by address removes the handler
//! registered under it.
use vstd::prelude::*;

verus! {

/// Address of the C callback a handler is registered under.
pub type CbAddr = usize;

/// Opaque type standing for the C callback functions, only ever used behind an address;
/// code outside this crate cannot make a value of it.
pub struct HandlerCb(());

/// What a timed or stanza handler asks for after it ran.
#[derive(Debug, Clone, Copy, PartialEq, Eq, Structural)]
pub enum HandlerResult {
    RemoveHandler,
    KeepHandler,
}

impl HandlerResult {
    /// The C `int` the library expects back from the callback.
    pub open spec fn code_spec(self) -> i32 {
        match self {
            HandlerResult::RemoveHandler => 0i32,
            HandlerResult::KeepHandler => 1i32,
        }
    }

    /// The C `int` the library expects back from the callback.
    #[verifier::when_used_as_spec(code_spec)]
    pub fn to_c_int(self) -> (r: i32)
        ensures
            r == self.code_spec(),
    {
        match self {
            HandlerResult::RemoveHandler => 0,
            HandlerResult::KeepHandler => 1,
        }
    }
}

/// What a certificate failure handler decides.
#[derive(Debug, Clone, Copy, PartialEq, Eq, Structural)]
pub enum CertFailResult {
    TerminateConnection,
    EstablishConnection,
}

impl CertFailResult {
    /// The C `int` the library expects back from the callback.
    pub open spec fn code_spec(self) -> i32 {
        match self {
            CertFailResult::TerminateConnection => 0i32,
            CertFailResult::EstablishConnection => 1i32,
        }
    }

    /// The C `int` the library expects back from the callback.
    #[verifier::when_used_as_spec(code_spec)]
    pub fn to_c_int(self) -> (r: i32)
        ensures
            r == self.code_spec(),
    {
        match self {
            CertFailResult::TerminateConnection => 0,
            CertFailResult::EstablishConnection => 1,
        }
    }
}

/// What a socket option handler reports.
#[derive(Debug, Clone, Copy, PartialEq, Eq, Structural)]
pub enum SockoptResult {
    Success,
    Error,
}

impl SockoptResult {
    /// The C `int` the library expects back from the callback.
    pub open spec fn code_spec(self) -> i32 {
        match self {
            SockoptResult::Success => 0i32,
            SockoptResult::Error => -1i32,
        }
    }

    /// The C `int` the library expects back from the callback.
    #[verifier::when_used_as_spec(code_spec)]
    pub fn to_c_int(self) -> (r: i32)
        ensures
            r == self.code_spec(),
    {
        match self {
            SockoptResult::Success => 0,
            SockoptResult::Error => -1,
        }
    }
}

/// Code returned to the C library by the certificate failure callback: the decision of the
/// handler registered for it, or "terminate" when none is registered.
pub fn certfail_callback_code(found: Option<CertFailResult>) -> (r: i32)
    ensures
        r == match found {
            Some(res) => res.code_spec(),
            None => CertFailResult::TerminateConnection.code_spec(),
        },
{
    match found {
        Some(res) => res.to_c_int(),
        None => CertFailResult::TerminateConnection.to_c_int(),
    }
}

/// Code returned to the C library by the socket option callback: the result of the handler
/// registered for it, or "error" when none is registered.
pub fn sockopt_callback_code(found: Option<SockoptResult>) -> (r: i32)
    ensures
        r == match found {
            Some(res) => res.code_spec(),
            None => SockoptResult::Error.code_spec(),
        },
{
    match found {
        Some(res) => res.to_c_int(),
        None => SockoptResult::Error.to_c_int(),
    }
}

/// Identifies a stanza handler added with `handler_add`.
#[derive(Debug, PartialEq, Eq, Structural)]
pub struct HandlerId(pub CbAddr);

/// Identifies a timed handler added with `timed_handler_add`.
#[derive(Debug, PartialEq, Eq, Structural)]
pub struct TimedHandlerId(pub CbAddr);

/// Identifies a stanza handler added with `id_handler_add`.
#[derive(Debug, PartialEq, Eq, Structural)]
pub struct IdHandlerId(pub CbAddr);

/// A handler together with the address of the C callback that forwards to it and extra data.
pub struct FatHandler<H, E> {
    /// The user's handler.
    pub handler: H,
    /// The address of the C callback.
    pub cb_addr: CbAddr,
    /// Extra data associated with the handler.
    pub extra: E,
}

impl<H, E> FatHandler<H, E> {
    /// The address of the C callback.
    pub fn cb_addr(&self) -> (r: CbAddr)
        ensures
            r == self.cb_addr,
    {
        self.cb_addr
    }
}

/// Some handler in `s` is registered under `a`.
pub open spec fn has_addr<H, E>(s: Seq<FatHandler<H, E>>, a: CbAddr) -> bool {
    exists|i: int| 0 <= i < s.len() && #[trigger] s[i].cb_addr == a
}

/// No two handlers in `s` share an address.
pub open spec fn unique_addrs<H, E>(s: Seq<FatHandler<H, E>>) -> bool {
    forall|i: int, j: int|
        0 <= i < s.len() && 0 <= j < s.len() && i != j ==> #[trigger] s[i].cb_addr
            != #[trigger] s[j].cb_addr
}

/// The table after storing `h`: unchanged when its address is taken, else `h` appended.
pub open spec fn stored<H, E>(s: Seq<FatHandler<H, E>>, h: FatHandler<H, E>) -> Seq<FatHandler<H, E>> {
    if has_addr(s, h.cb_addr) {
        s
    } else {
        s.push(h)
    }
}

/// The handlers of `s` not registered under `a`, in order.
pub open spec fn without_addr<H, E>(s: Seq<FatHandler<H, E>>, a: CbAddr) -> Seq<FatHandler<H, E>> {
    s.filter(|h: FatHandler<H, E>| h.cb_addr != a)
}

/// The handlers of `s` whose extra data is present (`with_extra`) or absent (`!with_extra`).
pub open spec fn with_extra_is<H, X>(s: Seq<FatHandler<H, Option<X>>>, with_extra: bool) -> Seq<
    FatHandler<H, Option<X>>,
> {
    s.filter(|h: FatHandler<H, Option<X>>| (h.extra is Some) == with_extra)
}

/// An ordered table of handlers, at most one per callback address.
pub struct BoxedHandlers<H, E> {
    handlers: Vec<FatHandler<H, E>>,
}

impl<H, E> View for BoxedHandlers<H, E> {
    type V = Seq<FatHandler<H, E>>;

    closed spec fn view(&self) -> Seq<FatHandler<H, E>> {
        self.handlers@
    }
}

/// A sequence whose elements all satisfy `pred` is its own filter.
pub proof fn lemma_filter_all<A>(s: Seq<A>, pred: spec_fn(A) -> bool)
    requires
        forall|i: int| 0 <= i < s.len() ==> pred(#[trigger] s[i]),
    ensures
        s.filter(pred) == s,
    decreases s.len(),
{
    reveal(Seq::filter);
    if s.len() > 0 {
        lemma_filter_all(s.drop_last(), pred);
        assert(s.drop_last().push(s.last()) =~= s);
    }
}

/// Filtering the prefix of length `i + 1` adds at most the element at `i`.
pub proof fn lemma_filter_take_step<A>(s: Seq<A>, pred: spec_fn(A) -> bool, i: int)
    requires
        0 <= i < s.len(),
    ensures
        s.take(i + 1).filter(pred) == if pred(s[i]) {
            s.take(i).filter(pred).push(s[i])
        } else {
            s.take(i).filter(pred)
        },
{
    assert(s.take(i + 1) =~= s.take(i).push(s[i]));
    s.take(i).lemma_filter_push(s[i], pred);
}

/// Every element of a filter is an element of the sequence it filters.
pub proof fn lemma_filter_subset<A>(s: Seq<A>, pred: spec_fn(A) -> bool)
    ensures
        forall|k: int|
            0 <= k < s.filter(pred).len() ==> exists|j: int|
                0 <= j < s.len() && s[j] == #[trigger] s.filter(pred)[k],
    decreases s.len(),
{
    reveal(Seq::filter);
    if s.len() > 0 {
        lemma_filter_subset(s.drop_last(), pred);
        let f = s.filter(pred);
        let g = s.drop_last().filter(pred);
        assert forall|k: int| 0 <= k < f.len() implies exists|j: int|
            0 <= j < s.len() && s[j] == #[trigger] f[k] by {
            if k < g.len() {
                let j = choose|j: int| 0 <= j < s.drop_last().len() && s.drop_last()[j] == g[k];
                assert(s[j] == f[k]);
            } else {
                assert(f[k] == s[s.len() - 1]);
            }
        }
    }
}

/// Filtering keeps the elements in the order of the filtered sequence, so a filter of a
/// table with unique addresses has unique addresses.
pub proof fn lemma_filter_unique<H, E>(s: Seq<FatHandler<H, E>>, pred: spec_fn(FatHandler<H, E>) -> bool)
    requires
        unique_addrs(s),
    ensures
        unique_addrs(s.filter(pred)),
    decreases s.len(),
{
    reveal(Seq::filter);
    if s.len() > 0 {
        let d = s.drop_last();
        assert(unique_addrs(d)) by {
            assert forall|i: int, j: int|
                0 <= i < d.len() && 0 <= j < d.len() && i != j implies #[trigger] d[i].cb_addr
                != #[trigger] d[j].cb_addr by {
                assert(d[i] == s[i] && d[j] == s[j]);
            }
        }
        lemma_filter_unique(d, pred);
        lemma_filter_subset(d, pred);
        let g = d.filter(pred);
        if pred(s.last()) {
            let f = g.push(s.last());
            assert forall|i: int, j: int|
                0 <= i < f.len() && 0 <= j < f.len() && i != j implies #[trigger] f[i].cb_addr
                != #[trigger] f[j].cb_addr by {
                if i < g.len() && j < g.len() {
                    assert(f[i] == g[i] && f[j] == g[j]);
                } else if i < g.len() {
                    let k = choose|k: int| 0 <= k < d.len() && d[k] == #[trigger] g[i];
                    assert(f[i] == s[k]);
                    assert(f[j] == s[s.len() - 1]);
                } else {
                    let k = choose|k: int| 0 <= k < d.len() && d[k] == #[trigger] g[j];
                    assert(f[j] == s[k]);
                    assert(f[i] == s[s.len() - 1]);
                }
            }
        }
    }
}

/// Storing a handler keeps the addresses unique.
pub proof fn lemma_stored_unique<H, E>(s: Seq<FatHandler<H, E>>, h: FatHandler<H, E>)
    requires
        unique_addrs(s),
    ensures
        unique_addrs(stored(s, h)),
{
    if !has_addr(s, h.cb_addr) {
        let t = s.push(h);
        assert forall|i: int, j: int|
            0 <= i < t.len() && 0 <= j < t.len() && i != j implies #[trigger] t[i].cb_addr
            != #[trigger] t[j].cb_addr by {
            if i < s.len() && j < s.len() {
                assert(t[i] == s[i] && t[j] == s[j]);
            } else if i < s.len() {
                assert(t[i] == s[i]);
            } else {
                assert(t[j] == s[j]);
            }
        }
    }
}

/// A handler added under a fresh address and then deleted by that address leaves the table
/// as it was.
pub proof fn law_store_then_drop<H, E>(s: Seq<FatHandler<H, E>>, h: FatHandler<H, E>)
    requires
        !has_addr(s, h.cb_addr),
    ensures
        without_addr(stored(s, h), h.cb_addr) == s,
{
    let pred = |x: FatHandler<H, E>| x.cb_addr != h.cb_addr;
    assert forall|k: int| 0 <= k < s.len() implies pred(#[trigger] s[k]) by {}
    lemma_filter_all(s, pred);
    s.lemma_filter_push(h, pred);
}

/// Storing under an address no handler holds adds that handler at the end of the table,
/// whatever the table's size: afterwards the table is one longer and holds a handler under that
/// address. Storing under a taken address leaves the table as it is.
pub proof fn law_store_fresh_appends<H, E>(s: Seq<FatHandler<H, E>>, h: FatHandler<H, E>)
    ensures
        !has_addr(s, h.cb_addr) ==> stored(s, h) == s.push(h),
        !has_addr(s, h.cb_addr) ==> stored(s, h).len() == s.len() + 1,
        !has_addr(s, h.cb_addr) ==> stored(s, h)[s.len() as int] == h,
        has_addr(stored(s, h), h.cb_addr),
        has_addr(s, h.cb_addr) ==> stored(s, h) == s,
{
    if !has_addr(s, h.cb_addr) {
        assert(stored(s, h)[s.len() as int].cb_addr == h.cb_addr);
    }
}

/// A callback can be stored only once: storing a second handler under an address that is
/// already taken changes nothing.
pub proof fn law_store_twice<H, E>(s: Seq<FatHandler<H, E>>, h: FatHandler<H, E>, h2: FatHandler<H, E>)
    requires
        h2.cb_addr == h.cb_addr,
    ensures
        stored(stored(s, h), h2) == stored(s, h),
{
    if !has_addr(s, h.cb_addr) {
        let t = s.push(h);
        assert(t[s.len() as int].cb_addr == h2.cb_addr);
    }
}

/// Deleting an address that holds no handler changes nothing.
pub proof fn law_drop_absent<H, E>(s: Seq<FatHandler<H, E>>, a: CbAddr)
    requires
        !has_addr(s, a),
    ensures
        without_addr(s, a) == s,
{
    let pred = |x: FatHandler<H, E>| x.cb_addr != a;
    assert forall|k: int| 0 <= k < s.len() implies pred(#[trigger] s[k]) by {}
    lemma_filter_all(s, pred);
}

/// After deleting an address no handler is registered under it, and every handler registered
/// under another address is still there.
pub proof fn law_drop_removes_only<H, E>(s: Seq<FatHandler<H, E>>, a: CbAddr, b: CbAddr)
    ensures
        !has_addr(without_addr(s, a), a),
        b != a && has_addr(s, b) ==> has_addr(without_addr(s, a), b),
{
    let pred = |x: FatHandler<H, E>| x.cb_addr != a;
    let f = s.filter(pred);
    assert forall|k: int| 0 <= k < f.len() implies #[trigger] f[k].cb_addr != a by {
        s.lemma_filter_pred(pred, k);
    }
    if b != a && has_addr(s, b) {
        let i = choose|i: int| 0 <= i < s.len() && #[trigger] s[i].cb_addr == b;
        s.lemma_filter_contains(pred, i);
        let k = choose|k: int| 0 <= k < f.len() && f[k] == s[i];
        assert(f[k].cb_addr == b);
    }
}

/// Splitting a table by the presence of extra data loses no handler: every handler lands in
/// exactly one of the two parts.
pub proof fn law_split_by_extra<H, X>(s: Seq<FatHandler<H, Option<X>>>)
    ensures
        with_extra_is(s, true).len() + with_extra_is(s, false).len() == s.len(),
    decreases s.len(),
{
    reveal(Seq::filter);
    if s.len() > 0 {
        law_split_by_extra(s.drop_last());
    }
}

impl<H, E> BoxedHandlers<H, E> {
    #[verifier::type_invariant]
    spec fn inv(self) -> bool {
        unique_addrs(self.handlers@)
    }

    /// No two handlers of the table share an address.
    pub fn check_unique(&self)
        ensures
            unique_addrs(self@),
    {
        proof {
            use_type_invariant(self);
        }
    }

    /// An empty table.
    pub fn new(capacity: usize) -> (r: Self)
        ensures
            r@ == Seq::<FatHandler<H, E>>::empty(),
    {
        BoxedHandlers { handlers: Vec::with_capacity(capacity) }
    }

    /// The number of handlers in the table.
    pub fn count(&self) -> (r: usize)
        ensures
            r == self@.len(),
    {
        self.handlers.len()
    }

    /// Position of the handler registered under `cb_addr`, if any.
    fn position(&self, cb_addr: CbAddr) -> (r: Option<usize>)
        ensures
            match r {
                Some(i) => i < self@.len() && self@[i as int].cb_addr == cb_addr,
                None => !has_addr(self@, cb_addr),
            },
    {
        let mut i: usize = 0;
        while i < self.handlers.len()
            invariant
                i <= self.handlers@.len(),
                forall|j: int| 0 <= j < i ==> #[trigger] self.handlers@[j].cb_addr != cb_addr,
            decreases self.handlers@.len() - i,
        {
            if self.handlers[i].cb_addr == cb_addr {
                return Some(i);
            }
            i = i + 1;
        }
        None
    }

    /// Stores `handler` unless a handler is already registered under its address.
    ///
    /// Returns whether it was stored.
    pub fn store(&mut self, handler: FatHandler<H, E>) -> (r: bool)
        ensures
            r == !has_addr(old(self)@, handler.cb_addr),
            final(self)@ == stored(old(self)@, handler),
            !has_addr(old(self)@, handler.cb_addr) ==> final(self)@ == old(self)@.push(handler),
            has_addr(old(self)@, handler.cb_addr) ==> final(self)@ == old(self)@,
    {
        proof {
            use_type_invariant(&*self);
        }
        match self.position(handler.cb_addr) {
            Some(_) => false,
            None => {
                proof {
                    lemma_stored_unique(self.handlers@, handler);
                }
                let mut handlers: Vec<FatHandler<H, E>> = Vec::new();
                std::mem::swap(&mut handlers, &mut self.handlers);
                handlers.push(handler);
                self.handlers = handlers;
                true
            },
        }
    }

    /// The handler registered under `cb_addr`, if any.
    pub fn validate(&self, cb_addr: CbAddr) -> (r: Option<&FatHandler<H, E>>)
        ensures
            r is Some <==> has_addr(self@, cb_addr),
            r matches Some(h) ==> h.cb_addr == cb_addr && exists|i: int|
                0 <= i < self@.len() && self@[i] == *h,
    {
        match self.position(cb_addr) {
            Some(i) => Some(&self.handlers[i]),
            None => None,
        }
    }

    /// Removes the handler registered under `cb_addr`, returning how many handlers were removed.
    pub fn drop_handler(&mut self, cb_addr: CbAddr) -> (r: usize)
        ensures
            final(self)@ == without_addr(old(self)@, cb_addr),
            r == old(self)@.len() - final(self)@.len(),
            r == if has_addr(old(self)@, cb_addr) {
                1usize
            } else {
                0usize
            },
    {
        proof {
            use_type_invariant(&*self);
        }
        let ghost s = self.handlers@;
        let ghost pred = |h: FatHandler<H, E>| h.cb_addr != cb_addr;
        match self.position(cb_addr) {
            Some(i) => {
                proof {
                    let a = s.subrange(0, i as int);
                    let b = s.subrange(i as int + 1, s.len() as int);
                    assert(s =~= a + seq![s[i as int]] + b);
                    assert forall|k: int| 0 <= k < a.len() implies pred(#[trigger] a[k]) by {
                        assert(a[k] == s[k]);
                    }
                    assert forall|k: int| 0 <= k < b.len() implies pred(#[trigger] b[k]) by {
                        assert(b[k] == s[k + i + 1]);
                    }
                    lemma_filter_all(a, pred);
                    lemma_filter_all(b, pred);
                    Seq::filter_distributes_over_add(a + seq![s[i as int]], b, pred);
                    Seq::filter_distributes_over_add(a, seq![s[i as int]], pred);
                    reveal_with_fuel(Seq::filter, 2);
                    assert(seq![s[i as int]].filter(pred) =~= Seq::<FatHandler<H, E>>::empty());
                    assert(s.remove(i as int) =~= a + b);
                    lemma_filter_unique(s, pred);
                }
                let mut handlers: Vec<FatHandler<H, E>> = Vec::new();
                std::mem::swap(&mut handlers, &mut self.handlers);
                let _removed = handlers.remove(i);
                self.handlers = handlers;
                1
            },
            None => {
                proof {
                    assert forall|k: int| 0 <= k < s.len() implies pred(#[trigger] s[k]) by {}
                    lemma_filter_all(s, pred);
                }
                0
            },
        }
    }

    /// Removes every handler, returning them in table order.
    pub fn take_all(&mut self) -> (r: Vec<FatHandler<H, E>>)
        ensures
            r@ == old(self)@,
            final(self)@ == Seq::<FatHandler<H, E>>::empty(),
    {
        let mut out: Vec<FatHandler<H, E>> = Vec::new();
        std::mem::swap(&mut out, &mut self.handlers);
        out
    }
}

impl<H, X> BoxedHandlers<H, Option<X>> {
    /// Splits off the handlers whose extra data is present (`with_extra`) or absent.
    fn take_where(&mut self, with_extra: bool) -> (r: Vec<FatHandler<H, Option<X>>>)
        ensures
            r@ == with_extra_is(old(self)@, with_extra),
            final(self)@ == with_extra_is(old(self)@, !with_extra),
    {
        proof {
            use_type_invariant(&*self);
        }
        let ghost s = self.handlers@;
        let ghost p_take = |h: FatHandler<H, Option<X>>| (h.extra is Some) == with_extra;
        let ghost p_keep = |h: FatHandler<H, Option<X>>| (h.extra is Some) == !with_extra;
        let mut rest: Vec<FatHandler<H, Option<X>>> = Vec::new();
        std::mem::swap(&mut rest, &mut self.handlers);
        let mut kept: Vec<FatHandler<H, Option<X>>> = Vec::new();
        let mut taken: Vec<FatHandler<H, Option<X>>> = Vec::new();
        let ghost mut i: int = 0;
        proof {
            assert(s.take(0) =~= Seq::<FatHandler<H, Option<X>>>::empty());
            reveal_with_fuel(Seq::filter, 1);
            assert(rest@ =~= s.skip(0));
        }
        while rest.len() > 0
            invariant
                0 <= i <= s.len(),
                rest@ == s.skip(i),
                p_take == (|h: FatHandler<H, Option<X>>| (h.extra is Some) == with_extra),
                p_keep == (|h: FatHandler<H, Option<X>>| (h.extra is Some) == !with_extra),
                kept@ == s.take(i).filter(p_keep),
                taken@ == s.take(i).filter(p_take),
            decreases rest@.len(),
        {
            let h = rest.remove(0);
            proof {
                assert(h == s[i]);
                lemma_filter_take_step(s, p_keep, i);
                lemma_filter_take_step(s, p_take, i);
                assert(rest@ =~= s.skip(i + 1));
            }
            let is_some = match &h.extra {
                Some(_) => true,
                None => false,
            };
            proof {
                assert(is_some == (s[i].extra is Some));
                assert(p_take(s[i]) == (is_some == with_extra));
                assert(p_keep(s[i]) == (is_some != with_extra));
            }
            if is_some == with_extra {
                taken.push(h);
            } else {
                kept.push(h);
            }
            proof {
                i = i + 1;
            }
        }
        proof {
            assert(s.take(i) =~= s);
            lemma_filter_unique(s, p_keep);
            assert(p_keep == (|h: FatHandler<H, Option<X>>| (h.extra is Some) == !with_extra));
        }
        self.handlers = kept;
        taken
    }

    /// Removes the handlers without extra data, returning them in table order.
    pub fn take_without_extra(&mut self) -> (r: Vec<FatHandler<H, Option<X>>>)
        ensures
            r@ == with_extra_is(old(self)@, false),
            final(self)@ == with_extra_is(old(self)@, true),
    {
        self.take_where(false)
    }

    /// Removes the handlers with extra data, returning them in table order.
    pub fn take_with_extra(&mut self) -> (r: Vec<FatHandler<H, Option<X>>>)
        ensures
            r@ == with_extra_is(old(self)@, true),
            final(self)@ == with_extra_is(old(self)@, false),
    {
        self.take_where(true)
    }
}

/// Puts `handler` into the slot, returning the handler it replaces.
pub fn set_handler<H>(slot: &mut Option<H>, handler: H) -> (r: Option<H>)
    ensures
        r == *old(slot),
        *final(slot) == Some(handler),
{
    let old_handler = slot.take();
    *slot = Some(handler);
    old_handler
}

} // verus!
