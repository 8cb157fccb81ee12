//! Per-thread destructor registration and draining.
//!
//! Each thread holds an ordered list of zero-argument callbacks to run when
//! the thread, or the owning module, is torn down. User code appends to the
//! list at any time; when the runtime environment delivers its detach
//! notification, the list is drained: callbacks are popped and invoked from
//! last-registered to first, until none remain. Registering further
//! callbacks while a drain is running is permitted — a destructor may tear
//! down state of its own — but a destructor that unconditionally
//! re-registers itself makes the drain endless, and preventing that is the
//! caller's obligation, not this module's.
//!
//! A callback is identified here by a plain value: the registry records and
//! hands back which callbacks to invoke, and in what order, while the
//! caller — who owns the actual code the identifiers stand for — performs
//! each invocation as it is handed out. [`drain_next`] is that step-by-step
//! protocol; [`drop_locals`] and [`tls_callback`] drain a whole list at
//! once and return the invocation order.
//!
//! After an environment-triggered drain the thread-local memory backing the
//! list is discarded, so the registry is terminal: registering on that
//! thread again is a contract violation. A manual drain keeps the backing
//! memory, and the thread may register and drain again later.
//!
//! A known boundary of the host loading model, not repaired here: when the
//! owning module is unloaded while other threads still exist, only the
//! unloading thread receives the detach notification — the other threads'
//! registries for that module's state are never drained.

use vstd::prelude::*;

verus! {

/// The detach notification reason code for a thread that is exiting.
pub const DLL_THREAD_DETACH: u32 = 3;

/// The detach notification reason code for a process that is exiting or a
/// module that is being unloaded.
pub const DLL_PROCESS_DETACH: u32 = 0;

/// Whether a thread is passively holding destructors or actively running
/// them.
#[derive(Clone, Copy, Debug, PartialEq, Eq, Structural)]
pub enum DtorState {
    /// Passively waiting to run destructors, either when the thread exits
    /// or when [`drop_locals`] is called.
    Passive,
    /// Destructors are currently being run.
    Dropping,
}

/// One thread's destructor registry: the ordered list of registered
/// callbacks, the drain state, and whether the list's backing memory is
/// still present.
pub struct DtorRegistry {
    /// The registered callbacks, oldest first.
    pub callbacks: Vec<u64>,
    /// Whether a drain is currently running.
    pub state: DtorState,
    /// Whether the list's backing memory is still present. It is released
    /// when an environment-triggered drain completes; a registry without it
    /// accepts nothing further.
    pub alive: bool,
}

/// The mathematical view of a [`DtorRegistry`].
pub struct DtorView {
    pub callbacks: Seq<u64>,
    pub state: DtorState,
    pub alive: bool,
}

impl View for DtorRegistry {
    type V = DtorView;

    open spec fn view(&self) -> DtorView {
        DtorView { callbacks: self.callbacks@, state: self.state, alive: self.alive }
    }
}

/// Whether a registry still accepts registrations: only the release of its
/// backing memory, after an environment-triggered drain, ends that.
pub open spec fn can_register(r: DtorView) -> bool {
    r.alive
}

/// The registry after `f` is registered: `f` is appended to the list and
/// nothing else changes.
pub open spec fn spec_register(r: DtorView, f: u64) -> DtorView {
    DtorView { callbacks: r.callbacks.push(f), ..r }
}

/// The order in which a drain invokes a list of callbacks registered in
/// order `s`: last-registered first.
pub open spec fn drain_order(s: Seq<u64>) -> Seq<u64>
    decreases s.len(),
{
    if s.len() == 0 {
        Seq::empty()
    } else {
        seq![s.last()] + drain_order(s.drop_last())
    }
}

/// The registry and the handed-out callback after one drain step: the
/// last-registered callback leaves the list and is returned, or the list
/// was already empty and the drain is complete.
pub open spec fn spec_drain_next(r: DtorView) -> (DtorView, Option<u64>) {
    if r.callbacks.len() == 0 {
        (r, None)
    } else {
        (DtorView { callbacks: r.callbacks.drop_last(), ..r }, Some(r.callbacks.last()))
    }
}

/// The registry and the invocation order after a manual drain: every
/// callback left, in last-registered-first order; the thread is passive
/// again and may register anew.
pub open spec fn spec_drop_locals(r: DtorView) -> (DtorView, Seq<u64>) {
    (
        DtorView { callbacks: Seq::empty(), state: DtorState::Passive, alive: true },
        drain_order(r.callbacks),
    )
}

/// The registry and the invocation order after the environment delivers
/// reason code `reason`. A detach reason drains the list and then discards
/// its backing memory — the registry is terminal; any other reason changes
/// nothing.
pub open spec fn spec_tls_callback(r: DtorView, reason: u32) -> (DtorView, Seq<u64>) {
    if reason == DLL_THREAD_DETACH || reason == DLL_PROCESS_DETACH {
        (
            DtorView { callbacks: Seq::empty(), state: DtorState::Dropping, alive: false },
            drain_order(r.callbacks),
        )
    } else {
        (r, Seq::empty())
    }
}

impl DtorRegistry {
    /// The registry a thread starts with: empty, passive, accepting.
    pub fn new() -> (r: DtorRegistry)
        ensures
            r@.callbacks == Seq::<u64>::empty(),
            r@.state == DtorState::Passive,
            r@.alive,
    {
        DtorRegistry { callbacks: Vec::new(), state: DtorState::Passive, alive: true }
    }
}

/// Returns the current [`DtorState`] of the calling thread's registry.
pub fn state(r: &DtorRegistry) -> (s: DtorState)
    ensures
        s == r@.state,
{
    r.state
}

/// Registers a destructor on this thread only: appends it to the calling
/// thread's list. Valid in any state, including while a drain is running —
/// a callback registered mid-drain is invoked before that drain completes.
/// Only a registry whose backing memory an environment-triggered drain has
/// already discarded accepts nothing more; registering there is a fatal
/// usage error, which this contract excludes.
///
/// Every thread that initializes a value registers its own destructor;
/// nothing runs on a thread that never did.
pub fn register_dtor(r: &mut DtorRegistry, f: u64)
    requires
        can_register(old(r)@),
    ensures
        final(r)@ == spec_register(old(r)@, f),
{
    r.callbacks.push(f);
}

/// Begins a drain: the thread moves from passively holding destructors to
/// actively running them.
pub fn begin_drain(r: &mut DtorRegistry)
    requires
        old(r)@.alive,
        old(r)@.state == DtorState::Passive,
    ensures
        final(r)@ == (DtorView { state: DtorState::Dropping, ..old(r)@ }),
{
    r.state = DtorState::Dropping;
}

/// Hands out the next callback of a running drain: the last-registered one
/// leaves the list and is returned for the caller to invoke, or `None`
/// reports the drain complete. If the invoked callback registers anew, the
/// new callback is the next handed out; each step on a list that only
/// shrinks brings the drain closer to its end.
pub fn drain_next(r: &mut DtorRegistry) -> (next: Option<u64>)
    requires
        old(r)@.alive,
        old(r)@.state == DtorState::Dropping,
    ensures
        (final(r)@, next) == spec_drain_next(old(r)@),
{
    r.callbacks.pop()
}

/// Ends a manual drain once the list is empty: the thread is passive again
/// and may register and drain anew.
pub fn end_drain(r: &mut DtorRegistry)
    requires
        old(r)@.alive,
        old(r)@.state == DtorState::Dropping,
        old(r)@.callbacks.len() == 0,
    ensures
        final(r)@ == (DtorView { state: DtorState::Passive, ..old(r)@ }),
{
    r.state = DtorState::Passive;
}

/// Discards the drained list's backing memory after an environment-
/// triggered drain: the thread-local memory is never used again, and the
/// registry is terminal — no further registration is accepted.
pub fn discard_list(r: &mut DtorRegistry)
    requires
        old(r)@.alive,
        old(r)@.state == DtorState::Dropping,
        old(r)@.callbacks.len() == 0,
    ensures
        final(r)@ == (DtorView { alive: false, ..old(r)@ }),
        !can_register(final(r)@),
{
    r.alive = false;
}

/// The drain loop itself: pops and hands out the last-registered callback
/// until none remain, and returns the callbacks in the order a drain
/// invokes them. The registered code runs at the caller; a drain whose
/// callbacks register anew uses [`drain_next`] step by step instead.
fn drop_locals_internal(r: &mut DtorRegistry) -> (run: Vec<u64>)
    requires
        old(r)@.alive,
        old(r)@.state == DtorState::Dropping,
    ensures
        final(r)@ == (DtorView { callbacks: Seq::empty(), ..old(r)@ }),
        run@ == drain_order(old(r)@.callbacks),
{
    let mut run: Vec<u64> = Vec::new();
    loop
        invariant
            r@.alive,
            r@.state == DtorState::Dropping,
            run@ + drain_order(r@.callbacks) == drain_order(old(r)@.callbacks),
        ensures
            r@.alive,
            r@.state == DtorState::Dropping,
            r@.callbacks.len() == 0,
            run@ == drain_order(old(r)@.callbacks),
        decreases r@.callbacks.len(),
    {
        match drain_next(r) {
            Some(dtor) => {
                run.push(dtor);
            },
            None => {
                proof {
                    assert(run@ + drain_order(r@.callbacks) =~= run@);
                }
                break ;
            },
        }
    }
    proof {
        assert(r@.callbacks =~= Seq::<u64>::empty());
    }
    run
}

/// Runs the thread-local drops by hand, outside any thread exit: the
/// thread moves to `Dropping`, every registered callback is handed out in
/// last-registered-first order, and the thread returns to `Passive`, free
/// to register and drain again later. Calling this while a drain is
/// already running, or after an environment-triggered drain, is a contract
/// violation, which this contract excludes.
pub fn drop_locals(r: &mut DtorRegistry) -> (run: Vec<u64>)
    requires
        old(r)@.alive,
        old(r)@.state == DtorState::Passive,
    ensures
        (final(r)@, run@) == spec_drop_locals(old(r)@),
{
    begin_drain(r);
    let run = drop_locals_internal(r);
    end_drain(r);
    run
}

/// The entry the runtime environment calls once per thread with a reason
/// code, from the fixed callback table slot the binary registers. Only the
/// thread-detach and process-detach reasons act: the calling thread's list
/// is drained, last-registered first, and its backing memory is then
/// discarded for good — the registry is terminal and accepts no further
/// registration. Every other reason leaves the registry untouched.
pub fn tls_callback(r: &mut DtorRegistry, reason: u32) -> (run: Vec<u64>)
    requires
        old(r)@.alive,
        reason == DLL_THREAD_DETACH || reason == DLL_PROCESS_DETACH
            ==> old(r)@.state == DtorState::Passive,
    ensures
        (final(r)@, run@) == spec_tls_callback(old(r)@, reason),
{
    if reason == DLL_THREAD_DETACH || reason == DLL_PROCESS_DETACH {
        begin_drain(r);
        let run = drop_locals_internal(r);
        // The thread-local memory is never used after this point.
        discard_list(r);
        run
    } else {
        Vec::new()
    }
}

/// A drain's invocation order is exactly the reverse of the registration
/// order.
pub proof fn lemma_drain_order_is_reverse(s: Seq<u64>)
    ensures
        drain_order(s) == s.reverse(),
    decreases s.len(),
{
    if s.len() == 0 {
        assert(drain_order(s) =~= s.reverse());
    } else {
        lemma_drain_order_is_reverse(s.drop_last());
        assert(drain_order(s) =~= s.reverse());
    }
}

/// A drain invokes exactly the callbacks that were registered: nothing is
/// dropped, and nothing appears from elsewhere.
pub proof fn lemma_drain_order_contains(s: Seq<u64>, x: u64)
    ensures
        drain_order(s).contains(x) <==> s.contains(x),
{
    lemma_drain_order_is_reverse(s);
    if s.contains(x) {
        let i = choose|i: int| 0 <= i < s.len() && s[i] == x;
        assert(s.reverse()[s.len() - 1 - i] == x);
    }
    if s.reverse().contains(x) {
        let i = choose|i: int| 0 <= i < s.reverse().len() && s.reverse()[i] == x;
        assert(s[s.len() - 1 - i] == x);
    }
}

/// Last-in, first-out: registering `f1`, `f2`, `f3` in that order and then
/// draining invokes `f3`, `f2`, `f1` in that order, ahead of whatever had
/// been registered before them.
pub proof fn lemma_drain_lifo(r: DtorView, f1: u64, f2: u64, f3: u64)
    ensures
        spec_drop_locals(spec_register(spec_register(spec_register(r, f1), f2), f3)).1
            == seq![f3, f2, f1] + drain_order(r.callbacks),
{
    let s = r.callbacks;
    let s1 = s.push(f1);
    let s2 = s1.push(f2);
    let s3 = s2.push(f3);
    assert(s1.drop_last() =~= s);
    assert(s2.drop_last() =~= s1);
    assert(s3.drop_last() =~= s2);
    assert(drain_order(s1) == seq![f1] + drain_order(s));
    assert(drain_order(s2) == seq![f2] + drain_order(s1));
    assert(drain_order(s3) == seq![f3] + drain_order(s2));
    assert(seq![f3] + (seq![f2] + (seq![f1] + drain_order(s))) =~= seq![f3, f2, f1]
        + drain_order(s));
}

/// Destructor isolation across threads: a drain hands out only what its
/// own thread's registry holds, so a callback registered on one thread is
/// never invoked as a result of another thread's detach.
pub proof fn lemma_dtor_isolation(r: DtorView, f: u64)
    requires
        !r.callbacks.contains(f),
    ensures
        !drain_order(r.callbacks).contains(f),
{
    lemma_drain_order_contains(r.callbacks, f);
}

/// Re-entrant registration: a callback registered while a drain is running
/// is the very next one the drain hands out, so it runs before the drain
/// completes; and handing it out restores the list the drain had, so a
/// drain whose callbacks do not keep re-registering forever still reaches
/// the end of the list.
pub proof fn lemma_reentrant_registration(r: DtorView, f: u64)
    requires
        r.state == DtorState::Dropping,
    ensures
        spec_drain_next(spec_register(r, f)).1 == Some(f),
        spec_drain_next(spec_register(r, f)).0.callbacks == r.callbacks,
        r.callbacks.len() > 0 ==> spec_drain_next(r).0.callbacks.len() == r.callbacks.len()
            - 1,
{
    assert(r.callbacks.push(f).drop_last() =~= r.callbacks);
}

/// Terminal state: once an environment-triggered drain has completed, the
/// registry accepts no further registration — the precondition of
/// [`register_dtor`] can never hold again on that thread, so the attempt
/// is a contract violation rather than a silent success.
pub proof fn lemma_terminal_after_detach(r: DtorView, reason: u32)
    requires
        reason == DLL_THREAD_DETACH || reason == DLL_PROCESS_DETACH,
    ensures
        !can_register(spec_tls_callback(r, reason).0),
{
}

} // verus!
