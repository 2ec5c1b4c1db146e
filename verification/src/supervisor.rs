//! The process supervisor: owns the single running instance of the runtime
//! process and exposes load/unload with singleton enforcement.
//!
//! The supervisor is an explicit context object; the unverified driver keeps
//! it behind one mutual-exclusion lock and holds that lock across a whole
//! load or unload, never across a network call. The handle type `H` is
//! whatever the driver uses to own and terminate the spawned process; the
//! driver must arrange that dropping a handle terminates the process, so a
//! handle handed back by [`Supervisor::unload`] is a teardown obligation.

use vstd::prelude::*;

verus! {

/// What a call to [`Supervisor::load`] decided.
#[derive(Clone, Copy, PartialEq, Eq, Structural, Debug)]
pub enum LoadDecision {
    /// The slot was empty: the caller must spawn the runtime process and
    /// hand the handle to [`Supervisor::confirm_load`] while still holding
    /// the lock.
    MustSpawn,
    /// A process is already supervised; the call is a no-op apart from
    /// re-asserting the loaded flag. No duplicate is spawned.
    AlreadyRunning,
}

/// The supervisor's abstract state: the supervised process handle, if any,
/// and the loaded flag that gates generation and model-pull requests.
pub struct SupState<H> {
    pub running: Option<H>,
    pub loaded: bool,
}

/// One complete load call, as a transition on the abstract state: if a
/// process is already supervised it is left untouched and only the loaded
/// flag is set; otherwise the fresh handle `h` is stored. The second result
/// is whether this call performed the spawn.
pub open spec fn spec_load_round<H>(s: SupState<H>, h: H) -> (SupState<H>, bool) {
    if s.running is Some {
        (SupState { running: s.running, loaded: true }, false)
    } else {
        (SupState { running: Some(h), loaded: true }, true)
    }
}

/// One unload call, as a transition on the abstract state: the slot is
/// emptied and the loaded flag cleared, whatever the state was.
pub open spec fn spec_unload<H>(s: SupState<H>) -> SupState<H> {
    SupState { running: None, loaded: false }
}

/// The state after a sequence of complete load calls, paired with how many
/// of them performed a spawn.
pub open spec fn run_load_rounds<H>(s: SupState<H>, hs: Seq<H>) -> (SupState<H>, nat)
    decreases hs.len(),
{
    if hs.len() == 0 {
        (s, 0)
    } else {
        let (s1, spawned) = spec_load_round(s, hs[0]);
        let (s2, count) = run_load_rounds(s1, hs.skip(1));
        (s2, count + if spawned { 1nat } else { 0nat })
    }
}

/// A complete supervisor call, for reasoning about call sequences on the
/// abstract state.
pub enum SupOp<H> {
    /// One complete load call that, if it spawned, stored the handle `h`.
    LoadRound(H),
    /// One unload call.
    Unload,
}

/// The transition one supervisor call makes on the abstract state.
pub open spec fn spec_op<H>(s: SupState<H>, op: SupOp<H>) -> SupState<H> {
    match op {
        SupOp::LoadRound(h) => spec_load_round(s, h).0,
        SupOp::Unload => spec_unload(s),
    }
}

/// The state after a sequence of complete supervisor calls.
pub open spec fn run_ops<H>(s: SupState<H>, ops: Seq<SupOp<H>>) -> SupState<H>
    decreases ops.len(),
{
    if ops.len() == 0 {
        s
    } else {
        run_ops(spec_op(s, ops[0]), ops.skip(1))
    }
}

/// The supervisor. At most one supervised process exists at any time: the
/// slot is a single option, and a load that finds it occupied spawns
/// nothing.
pub struct Supervisor<H> {
    slot: Option<H>,
    loaded: bool,
}

impl<H> Supervisor<H> {
    /// The supervised process handle, if any.
    pub closed spec fn running(self) -> Option<H> {
        self.slot
    }

    /// The loaded flag, readable without the lock, gating whether generation
    /// and model-pull calls are permitted.
    pub closed spec fn loaded(self) -> bool {
        self.loaded
    }

    /// The supervisor's abstract state.
    pub open spec fn state(self) -> SupState<H> {
        SupState { running: self.running(), loaded: self.loaded() }
    }

    /// The supervisor's invariant: whoever observes the loaded flag set is
    /// guaranteed a process handle exists. (The converse need not hold; the
    /// flag may lag during teardown.)
    pub open spec fn wf(self) -> bool {
        self.loaded() ==> self.running() is Some
    }

    /// A fresh supervisor: idle, nothing supervised, not loaded.
    pub fn new() -> (s: Self)
        ensures
            s.running() is None,
            !s.loaded(),
            s.wf(),
    {
        Supervisor { slot: None, loaded: false }
    }

    /// Reads the loaded flag.
    pub fn is_loaded(&self) -> (r: bool)
        ensures
            r == self.loaded(),
    {
        self.loaded
    }

    /// Whether a process is currently supervised.
    pub fn has_instance(&self) -> (r: bool)
        ensures
            r == (self.running() is Some),
    {
        self.slot.is_some()
    }

    /// The first half of a load: decides whether a spawn is needed. When a
    /// process is already supervised the call is a benign no-op that spawns
    /// no duplicate and merely re-asserts the loaded flag. When the slot is
    /// empty nothing changes yet: the loaded flag is set only once the
    /// spawned handle is stored, so spawn happens-before the flag.
    pub fn load(&mut self) -> (r: LoadDecision)
        requires
            old(self).wf(),
        ensures
            final(self).wf(),
            r is AlreadyRunning <==> old(self).running() is Some,
            r is AlreadyRunning ==> final(self).running() == old(self).running()
                && final(self).loaded(),
            r is AlreadyRunning ==> forall|h: H|
                final(self).state() == #[trigger] spec_load_round(old(self).state(), h).0
                    && !spec_load_round(old(self).state(), h).1,
            r is MustSpawn ==> *final(self) == *old(self),
    {
        if self.slot.is_some() {
            self.loaded = true;
            LoadDecision::AlreadyRunning
        } else {
            LoadDecision::MustSpawn
        }
    }

    /// The second half of a load after a successful spawn: stores the handle
    /// and only then sets the loaded flag. Together with [`Supervisor::load`]
    /// this implements [`spec_load_round`] on the abstract state. If the
    /// spawn fails the driver calls nothing and the supervisor is unchanged,
    /// still unloaded.
    pub fn confirm_load(&mut self, handle: H)
        requires
            old(self).running() is None,
        ensures
            final(self).running() == Some(handle),
            final(self).loaded(),
            final(self).wf(),
            final(self).state() == spec_load_round(old(self).state(), handle).0,
            spec_load_round(old(self).state(), handle).1,
    {
        self.slot = Some(handle);
        self.loaded = true;
    }

    /// Unloads: empties the slot and clears the loaded flag, unconditionally
    /// and without failing even when nothing was running. The returned
    /// handle, if any, is the caller's obligation to terminate; after the
    /// call no process is supervised, so no managed process outlives its
    /// handle's termination.
    pub fn unload(&mut self) -> (r: Option<H>)
        ensures
            final(self).running() is None,
            !final(self).loaded(),
            final(self).wf(),
            r == old(self).running(),
            final(self).state() == spec_unload(old(self).state()),
    {
        self.loaded = false;
        let mut taken: Option<H> = None;
        core::mem::swap(&mut self.slot, &mut taken);
        taken
    }
}

/// Law (teardown guarantee): after an unload, nothing is supervised and the
/// loaded flag is clear; the handle the unload hands back is the sole owner
/// of the one process there was, so terminating it leaves no managed process
/// alive.
pub proof fn lemma_unload_tears_down<H>(s: SupState<H>)
    ensures
        spec_unload(s).running is None,
        !spec_unload(s).loaded,
{
}

/// Helper for the singleton law: once a process is supervised, further load
/// calls spawn nothing and keep it supervised.
proof fn lemma_loads_after_running<H>(s: SupState<H>, hs: Seq<H>)
    requires
        s.running is Some,
    ensures
        run_load_rounds(s, hs).0.running == s.running,
        run_load_rounds(s, hs).0.loaded == (s.loaded || hs.len() > 0),
        run_load_rounds(s, hs).1 == 0,
    decreases hs.len(),
{
    if hs.len() > 0 {
        let (s1, spawned) = spec_load_round(s, hs[0]);
        assert(!spawned && s1.running == s.running && s1.loaded);
        lemma_loads_after_running(s1, hs.skip(1));
    }
}

/// Law (singleton invariant): any non-empty sequence of complete load calls,
/// serialized by the supervisor's lock and starting from an empty slot, ends
/// with exactly one supervised process, and exactly one of the calls
/// performed the spawn; every other call was a no-op.
pub proof fn lemma_load_singleton<H>(s0: SupState<H>, hs: Seq<H>)
    requires
        s0.running is None,
        hs.len() > 0,
    ensures
        run_load_rounds(s0, hs).0.running == Some(hs[0]),
        run_load_rounds(s0, hs).0.loaded,
        run_load_rounds(s0, hs).1 == 1,
{
    let (s1, spawned) = spec_load_round(s0, hs[0]);
    assert(spawned && s1.running == Some(hs[0]) && s1.loaded);
    lemma_loads_after_running(s1, hs.skip(1));
    if hs.skip(1).len() == 0 {
    } else {
        assert(run_load_rounds(s1, hs.skip(1)).0.loaded);
    }
}

} // verus!
