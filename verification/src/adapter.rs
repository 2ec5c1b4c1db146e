//! The runtime client adapter: generation and model-pull requests against
//! the locally running server, gated by the supervisor's loaded flag.
//!
//! The guard is a fast local precondition, not a network round-trip: when the
//! supervisor reports no running instance the adapter refuses the call with
//! [`AdapterError::NotLoaded`] immediately. When loaded, the adapter hands
//! the unverified driver a fully-formed request plan; the driver issues it
//! against the local server and returns the textual result unchanged,
//! wrapping any upstream failure as [`AdapterError::Upstream`].

use vstd::prelude::*;

use crate::error::AdapterError;
use crate::supervisor::SupOp;
use crate::supervisor::SupState;
use crate::supervisor::Supervisor;
use crate::supervisor::run_ops;
use crate::supervisor::spec_op;

verus! {

/// The model every request of this adapter names.
pub const MODEL_NAME: &'static str = "gemma3:1b";

/// A generation request ready to be issued against the local server.
#[derive(Debug)]
pub struct GenerationPlan {
    pub model: String,
    pub prompt: String,
}

/// A model-pull request ready to be issued against the local server.
#[derive(Debug)]
pub struct PullPlan {
    pub model: String,
    /// Insecure registry connections are never requested.
    pub allow_insecure: bool,
}

/// The runtime client adapter, constructed once and handed to every call.
pub struct Adapter {
    model: String,
}

impl Adapter {
    /// The model name the adapter requests.
    pub closed spec fn model_view(self) -> Seq<char> {
        self.model@
    }

    pub fn new(model: String) -> (a: Self)
        ensures
            a.model_view() == model@,
    {
        Adapter { model }
    }

    /// Builds a generation request for `prompt`, gated by the loaded flag:
    /// exactly the calls made while no runtime is loaded are refused, with
    /// `NotLoaded` and no network round-trip.
    pub fn generate<H>(&self, sup: &Supervisor<H>, prompt: String) -> (r: Result<
        GenerationPlan,
        AdapterError,
    >)
        ensures
            r is Err <==> !sup.loaded(),
            r matches Err(e) ==> e is NotLoaded,
            r matches Ok(p) ==> p.model@ == self.model_view() && p.prompt == prompt,
    {
        if !sup.is_loaded() {
            Err(AdapterError::NotLoaded)
        } else {
            Ok(GenerationPlan { model: self.model.clone(), prompt })
        }
    }

    /// Builds a model-pull request, gated by the loaded flag exactly as
    /// [`Adapter::generate`] is.
    pub fn pull_model<H>(&self, sup: &Supervisor<H>) -> (r: Result<PullPlan, AdapterError>)
        ensures
            r is Err <==> !sup.loaded(),
            r matches Err(e) ==> e is NotLoaded,
            r matches Ok(p) ==> p.model@ == self.model_view() && !p.allow_insecure,
    {
        if !sup.is_loaded() {
            Err(AdapterError::NotLoaded)
        } else {
            Ok(PullPlan { model: self.model.clone(), allow_insecure: false })
        }
    }
}

/// Law (gating invariant): from any state in which the supervisor is not
/// loaded — a fresh supervisor, or the state any unload leaves behind — the
/// loaded flag stays clear across every sequence of supervisor calls that
/// contains no load; so every generation or model-pull call issued before
/// the first successful load, or after an unload and before the next load,
/// is refused with `NotLoaded` by the adapter's guard.
pub proof fn lemma_guard_stays_closed<H>(s: SupState<H>, ops: Seq<SupOp<H>>)
    requires
        !s.loaded,
        forall|i: int| 0 <= i < ops.len() ==> !(#[trigger] ops[i] is LoadRound),
    ensures
        !run_ops(s, ops).loaded,
    decreases ops.len(),
{
    if ops.len() > 0 {
        let s1 = spec_op(s, ops[0]);
        assert(!s1.loaded);
        assert(forall|i: int| 0 <= i < ops.skip(1).len() ==> !(#[trigger] ops.skip(
            1,
        )[i] is LoadRound));
        lemma_guard_stays_closed(s1, ops.skip(1));
    }
}

} // verus!
