//! Process-wide initialization and shutdown of the C library.
//!
//! The C library is initialized once, on first use, and may be shut down once; after shutdown
//! it cannot be initialized again. Shutting down is safe several times and before any use.
use vstd::prelude::*;

verus! {

/// A call into the C library's process-wide setup.
#[derive(Debug, Clone, Copy, PartialEq, Eq, Structural)]
pub enum LibraryCall {
    /// `xmpp_initialize`.
    Initialize,
    /// `xmpp_shutdown`.
    Shutdown,
}

/// What the crate has done to the C library so far: whether it initialized it and whether it
/// shut it down.
pub struct LibraryState {
    pub initialized: bool,
    pub shut_down: bool,
}

/// The state of the C library and the calls still to make to it for one use of the crate.
pub struct Library {
    initialized: bool,
    shut_down: bool,
}

/// An entry point of the crate that touches the process-wide setup.
pub enum LibraryOp {
    /// Any use of the library, such as creating a context.
    Use,
    /// `shutdown()`.
    Shutdown,
}

/// State and calls after one entry point.
pub open spec fn step(s: LibraryState, op: LibraryOp) -> (LibraryState, Seq<LibraryCall>) {
    match op {
        LibraryOp::Use => if s.initialized {
            (s, Seq::empty())
        } else {
            (LibraryState { initialized: true, shut_down: s.shut_down }, seq![LibraryCall::Initialize])
        },
        LibraryOp::Shutdown => {
            let init_calls: Seq<LibraryCall> = if s.initialized {
                Seq::empty()
            } else {
                seq![LibraryCall::Initialize]
            };
            if s.shut_down {
                (LibraryState { initialized: true, shut_down: true }, init_calls)
            } else {
                (LibraryState { initialized: true, shut_down: true }, init_calls.push(LibraryCall::Shutdown))
            }
        },
    }
}

/// State and calls after a sequence of entry points.
pub open spec fn run(s: LibraryState, ops: Seq<LibraryOp>) -> (LibraryState, Seq<LibraryCall>)
    decreases ops.len(),
{
    if ops.len() == 0 {
        (s, Seq::empty())
    } else {
        let (s1, c1) = run(s, ops.drop_last());
        let (s2, c2) = step(s1, ops.last());
        (s2, c1 + c2)
    }
}

/// How often `call` occurs in `calls`.
pub open spec fn count_of(calls: Seq<LibraryCall>, call: LibraryCall) -> nat
    decreases calls.len(),
{
    if calls.len() == 0 {
        0
    } else {
        count_of(calls.drop_last(), call) + if calls.last() == call {
            1nat
        } else {
            0nat
        }
    }
}

impl View for Library {
    type V = LibraryState;

    closed spec fn view(&self) -> LibraryState {
        LibraryState { initialized: self.initialized, shut_down: self.shut_down }
    }
}

impl Library {
    #[verifier::type_invariant]
    spec fn inv(self) -> bool {
        self.shut_down ==> self.initialized
    }

    /// The state before the crate touched the C library.
    pub fn new() -> (r: Library)
        ensures
            r@ == (LibraryState { initialized: false, shut_down: false }),
    {
        Library { initialized: false, shut_down: false }
    }

    /// Whether the C library was shut down.
    pub fn is_shut_down(&self) -> (r: bool)
        ensures
            r == self@.shut_down,
    {
        self.shut_down
    }

    /// Ensures the C library is initialized: the first use initializes it, later uses do
    /// nothing, and a shut down library is not initialized again.
    pub fn init(&mut self) -> (r: Option<LibraryCall>)
        ensures
            (final(self)@, match r {
                Some(c) => seq![c],
                None => Seq::<LibraryCall>::empty(),
            }) == step(old(self)@, LibraryOp::Use),
    {
        if self.initialized {
            None
        } else {
            self.initialized = true;
            Some(LibraryCall::Initialize)
        }
    }

    /// Marks the library shut down, returning the shutdown call the first time.
    fn deinit(&mut self) -> (r: Option<LibraryCall>)
        requires
            old(self)@.initialized,
        ensures
            final(self)@.initialized,
            final(self)@.shut_down,
            r == if old(self)@.shut_down {
                None
            } else {
                Some(LibraryCall::Shutdown)
            },
    {
        if self.shut_down {
            None
        } else {
            self.shut_down = true;
            Some(LibraryCall::Shutdown)
        }
    }
}

/// Shuts the C library down, returning the calls to make in order: it is initialized first
/// when it never was, and shut down unless it already is. Safe to call several times and
/// before any other use.
pub fn shutdown(lib: &mut Library) -> (r: Vec<LibraryCall>)
    ensures
        (final(lib)@, r@) == step(old(lib)@, LibraryOp::Shutdown),
{
    let mut calls: Vec<LibraryCall> = Vec::new();
    match lib.init() {
        Some(c) => calls.push(c),
        None => {},
    }
    match lib.deinit() {
        Some(c) => calls.push(c),
        None => {},
    }
    proof {
        let init_calls: Seq<LibraryCall> = if old(lib)@.initialized {
            Seq::empty()
        } else {
            seq![LibraryCall::Initialize]
        };
        if old(lib)@.shut_down {
            assert(calls@ =~= init_calls);
        } else {
            assert(calls@ =~= init_calls.push(LibraryCall::Shutdown));
        }
    }
    calls
}

/// Shutting down twice is the same as shutting down once: the second call changes nothing and
/// makes no call.
pub proof fn law_shutdown_idempotent(s: LibraryState)
    ensures
        step(step(s, LibraryOp::Shutdown).0, LibraryOp::Shutdown) == (
            step(s, LibraryOp::Shutdown).0,
            Seq::<LibraryCall>::empty(),
        ),
        step(step(s, LibraryOp::Shutdown).0, LibraryOp::Use) == (
            step(s, LibraryOp::Shutdown).0,
            Seq::<LibraryCall>::empty(),
        ),
{
}

proof fn lemma_count_add(a: Seq<LibraryCall>, b: Seq<LibraryCall>, call: LibraryCall)
    ensures
        count_of(a + b, call) == count_of(a, call) + count_of(b, call),
    decreases b.len(),
{
    if b.len() == 0 {
        assert(a + b =~= a);
    } else {
        lemma_count_add(a, b.drop_last(), call);
        assert((a + b).drop_last() =~= a + b.drop_last());
    }
}

proof fn lemma_run_state(s: LibraryState, ops: Seq<LibraryOp>)
    requires
        s.shut_down ==> s.initialized,
    ensures
        run(s, ops).0.shut_down ==> run(s, ops).0.initialized,
        s.initialized ==> run(s, ops).0.initialized,
        s.shut_down ==> run(s, ops).0.shut_down,
        count_of(run(s, ops).1, LibraryCall::Initialize) == if s.initialized || !run(s, ops).0.initialized {
            0nat
        } else {
            1nat
        },
        count_of(run(s, ops).1, LibraryCall::Shutdown) == if s.shut_down || !run(s, ops).0.shut_down {
            0nat
        } else {
            1nat
        },
    decreases ops.len(),
{
    reveal_with_fuel(count_of, 3);
    if ops.len() > 0 {
        lemma_run_state(s, ops.drop_last());
        let (s1, c1) = run(s, ops.drop_last());
        let (s2, c2) = step(s1, ops.last());
        lemma_count_add(c1, c2, LibraryCall::Initialize);
        lemma_count_add(c1, c2, LibraryCall::Shutdown);
        if !s1.initialized {
            assert(seq![LibraryCall::Initialize].drop_last() =~= Seq::<LibraryCall>::empty());
            assert(seq![LibraryCall::Initialize].push(LibraryCall::Shutdown).drop_last()
                =~= seq![LibraryCall::Initialize]);
        } else {
            assert(Seq::<LibraryCall>::empty().push(LibraryCall::Shutdown).drop_last()
                =~= Seq::<LibraryCall>::empty());
        }
    }
}

/// Whatever the order and number of uses and shutdowns, starting from a fresh process the C
/// library is initialized at most once and shut down at most once, and it is shut down only
/// if it was initialized.
pub proof fn law_setup_calls_at_most_once(ops: Seq<LibraryOp>)
    ensures
        count_of(run(LibraryState { initialized: false, shut_down: false }, ops).1, LibraryCall::Initialize) <= 1,
        count_of(run(LibraryState { initialized: false, shut_down: false }, ops).1, LibraryCall::Shutdown) <= 1,
        count_of(run(LibraryState { initialized: false, shut_down: false }, ops).1, LibraryCall::Shutdown) == 1
            ==> count_of(run(LibraryState { initialized: false, shut_down: false }, ops).1, LibraryCall::Initialize) == 1,
{
    lemma_run_state(LibraryState { initialized: false, shut_down: false }, ops);
}

} // verus!
