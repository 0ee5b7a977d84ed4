//! The entry-point proxy: lazy, once-only resolution of the real library
//! and transparent forwarding of the impersonated entry point.
//!
//! The host calls one exported function that this tool impersonates. The
//! proxy resolves the genuine library's same-named export at most once per
//! process, memoizes it, and forwards every call to it with identical
//! arguments. The first successful resolution also applies the no-logo
//! patch, so that patch lands before the host's splash code can run.

use vstd::prelude::*;

use crate::memory::HostImage;
use crate::patches::{apply_no_logo, no_logo_step, sites_in_bounds, OffsetSet};
use crate::StartupError;

verus! {

/// The arguments of the impersonated entry point, carried as plain values:
/// an instance handle, a version number, an interface identifier, an output
/// pointer and an outer-unknown handle. The proxy never interprets them.
#[derive(Clone, Copy, PartialEq, Eq, Structural, Debug)]
pub struct CallArgs {
    pub instance: usize,
    pub version: u32,
    pub interface_id: u128,
    pub out_param: usize,
    pub outer_unknown: usize,
}

/// A forwarding decision: call the entry point at `entry` with `args`.
#[derive(Clone, Copy, PartialEq, Eq, Structural, Debug)]
pub struct ForwardPlan {
    pub entry: usize,
    pub args: CallArgs,
}

/// The proxy's shared state: the memoized entry point of the real library,
/// if resolved, and how many times the load-and-lookup sequence has run.
#[derive(Clone, Copy, PartialEq, Eq, Structural, Debug)]
pub struct ProxyState {
    pub entry: Option<usize>,
    pub resolutions: u64,
}

/// The proxy state after forcing resolution with result `entry`: a no-op
/// when already resolved, otherwise one resolution installing `entry`.
pub open spec fn forced(state: ProxyState, entry: usize) -> ProxyState {
    if state.entry is Some {
        state
    } else {
        ProxyState { entry: Some(entry), resolutions: 1 }
    }
}

impl ProxyState {
    /// The load-and-lookup sequence has run exactly once when an entry
    /// point is memoized and never otherwise.
    pub open spec fn wf(self) -> bool {
        self.resolutions == (if self.entry is Some { 1int } else { 0int })
    }

    /// The proxy before any call: nothing resolved.
    pub fn new() -> (r: ProxyState)
        ensures
            r.entry is None,
            r.resolutions == 0,
            r.wf(),
    {
        ProxyState { entry: None, resolutions: 0 }
    }

    /// Forces resolution of the real library. `resolution` is what the
    /// loader handed back for this attempt: the address of the real
    /// library's export, or nothing if the library or the export could not
    /// be found.
    ///
    /// If an entry point is already memoized, nothing happens: the attempt
    /// is not used, no patch is re-applied, and every later caller keeps
    /// observing the same entry point. On the first successful resolution
    /// the entry point is memoized and the no-logo patch is applied to the
    /// host image. A failed first resolution is the unrecoverable startup
    /// error: the proxy cannot forward, and nothing is changed.
    pub fn force(
        &mut self,
        resolution: Option<usize>,
        image: &mut HostImage,
        offsets: &OffsetSet,
    ) -> (r: Result<(), StartupError>)
        requires
            old(self).wf(),
            old(image).wf(),
            sites_in_bounds(*old(image), *offsets),
        ensures
            final(self).wf(),
            final(image).wf(),
            final(image).base == old(image).base,
            final(image).protection == old(image).protection,
            sites_in_bounds(*final(image), *offsets),
            r is Err <==> (old(self).entry is None && resolution is None),
            r is Err ==> r == Result::<(), StartupError>::Err(StartupError::RealLibraryUnresolved),
            old(self).entry is Some ==> *final(self) == *old(self) && *final(image) == *old(image),
            (old(self).entry is None && resolution is None) ==> *final(self) == *old(self)
                && *final(image) == *old(image),
            (old(self).entry is None && resolution is Some) ==> {
                &&& *final(self) == forced(*old(self), resolution->0)
                &&& final(self).entry == resolution
                &&& final(image).bytes@ == no_logo_step(old(image).bytes@, *offsets)
            },
    {
        if self.entry.is_some() {
            return Ok(());
        }
        match resolution {
            None => Err(StartupError::RealLibraryUnresolved),
            Some(entry) => {
                self.entry = Some(entry);
                self.resolutions = self.resolutions + 1;
                apply_no_logo(image, offsets);
                Ok(())
            },
        }
    }

    /// Plans one forwarded call: the memoized entry point of the real
    /// library is to be called with the caller's arguments, unchanged. The
    /// real status code travels back to the caller untouched, so the proxy
    /// is transparent but for the one-time patch side effect.
    pub fn forward(&self, args: CallArgs) -> (plan: ForwardPlan)
        requires
            self.entry is Some,
        ensures
            plan.entry == self.entry->0,
            plan.args == args,
    {
        match self.entry {
            Some(entry) => ForwardPlan { entry, args },
            None => vstd::pervasive::unreached(),
        }
    }
}

impl ForwardPlan {
    /// Delivers the real library's status code to the host caller: passed
    /// through unchanged, never swallowed or translated.
    pub fn deliver(&self, real_status: i32) -> (status: i32)
        ensures
            status == real_status,
    {
        real_status
    }
}

/// The proxy state after a whole sequence of forced resolutions, applied in
/// order.
pub open spec fn forced_all(state: ProxyState, attempts: Seq<usize>) -> ProxyState
    decreases attempts.len(),
{
    if attempts.len() == 0 {
        state
    } else {
        forced_all(forced(state, attempts[0]), attempts.drop_first())
    }
}

/// A resolved proxy is never changed by further forced resolutions.
proof fn lemma_resolved_is_stable(state: ProxyState, attempts: Seq<usize>)
    requires
        state.entry is Some,
    ensures
        forced_all(state, attempts) == state,
    decreases attempts.len(),
{
    if attempts.len() > 0 {
        lemma_resolved_is_stable(state, attempts.drop_first());
    }
}

/// Law: under any sequence of forced resolutions of an unresolved proxy,
/// the first attempt alone resolves; every later one is a no-op, and every
/// caller observes the entry point the first attempt installed.
pub proof fn lemma_first_resolution_wins(state: ProxyState, attempts: Seq<usize>)
    requires
        state.entry is None,
        attempts.len() > 0,
    ensures
        forced_all(state, attempts) == forced(state, attempts[0]),
        forced_all(state, attempts).entry == Some(attempts[0]),
{
    lemma_resolved_is_stable(forced(state, attempts[0]), attempts.drop_first());
}

/// Law: under any number of forced resolutions, the load-and-lookup
/// sequence runs at most once. A second force is a no-op: it neither
/// resolves again nor changes the entry point every caller observes.
pub proof fn lemma_resolution_at_most_once(state: ProxyState, first: usize, second: usize)
    ensures
        forced(forced(state, first), second) == forced(state, first),
        forced(state, first).entry is Some,
        state.entry is Some ==> forced(state, first) == state,
{
}

/// Law: a well-formed proxy has never resolved more than once.
pub proof fn lemma_resolution_count_bounded(state: ProxyState)
    requires
        state.wf(),
    ensures
        state.resolutions <= 1,
{
}

} // verus!
