//! Load identity, the startup sequencer, and the process-attach
//! orchestration that ties the whole lifecycle together.
//!
//! On first attach, the proxy's resolution is forced unconditionally, so
//! forwarding works from the earliest possible moment. A background task
//! then determines how this module was loaded: under the impersonated
//! library's filename, the activation gate must pass before the startup
//! sequencer runs; under any other (direct) name, the sequencer runs at
//! once. The sequencer applies the short-circuit patch and stands the tool
//! up, or ejects it if the render hook cannot be installed.

use vstd::prelude::*;

use crate::gate::{await_rshift, gate_passes, monotone, GateSample};
use crate::memory::HostImage;
use crate::patches::{apply_font_patch, font_patch_step, no_logo_step, sites_in_bounds, OffsetSet};
use crate::proxy::{forced, ProxyState};

verus! {

/// The lifecycle reason code that announces the module's first attach to a
/// process. Every other reason code is ignored.
pub const PROCESS_ATTACH: u32 = 1;

/// A byte folded to ASCII lower case; other bytes are kept as they are.
pub open spec fn ascii_lower(b: u8) -> u8 {
    if 65 <= b <= 90 {
        (b + 32) as u8
    } else {
        b
    }
}

/// A byte string folded to ASCII lower case.
pub open spec fn ascii_lower_seq(s: Seq<u8>) -> Seq<u8> {
    s.map_values(|b: u8| ascii_lower(b))
}

/// The impersonated library's filename, as lower-case bytes: `dinput8.dll`.
pub open spec fn impersonated_filename() -> Seq<u8> {
    seq![100u8, 105u8, 110u8, 112u8, 117u8, 116u8, 56u8, 46u8, 100u8, 108u8, 108u8]
}

/// Whether a module filename, when known, names the impersonated library,
/// compared without regard to ASCII case. An unknown filename counts as a
/// direct load.
pub open spec fn spec_load_is_impersonated(name: Option<Seq<u8>>) -> bool {
    name matches Some(n) && ascii_lower_seq(n) == impersonated_filename()
}

/// The filenames of an optional module path, viewed as byte strings.
pub open spec fn opt_name_view(name: Option<&Vec<u8>>) -> Option<Seq<u8>> {
    match name {
        Some(n) => Some(n@),
        None => None,
    }
}

/// Folds one byte to ASCII lower case.
fn ascii_lower_byte(b: u8) -> (r: u8)
    ensures
        r == ascii_lower(b),
{
    if 65 <= b && b <= 90 {
        b + 32
    } else {
        b
    }
}

/// Decides whether this module's on-disk filename is the impersonated
/// library's, without regard to ASCII case.
pub fn is_impersonated_filename(name: &Vec<u8>) -> (r: bool)
    ensures
        r == (ascii_lower_seq(name@) == impersonated_filename()),
{
    let expected: Vec<u8> = vec![100u8, 105u8, 110u8, 112u8, 117u8, 116u8, 56u8, 46u8, 100u8, 108u8, 108u8];
    proof {
        assert(expected@ =~= impersonated_filename());
    }
    if name.len() != expected.len() {
        proof {
            assert(ascii_lower_seq(name@).len() == name@.len());
        }
        return false;
    }
    let n: usize = name.len();
    let mut i: usize = 0;
    while i < n
        invariant
            i <= n,
            n == name@.len(),
            n == expected@.len(),
            expected@ == impersonated_filename(),
            forall|j: int| 0 <= j < i ==> ascii_lower(name@[j]) == expected@[j],
        decreases n - i,
    {
        let lowered: u8 = ascii_lower_byte(name[i]);
        if lowered != expected[i] {
            proof {
                assert(ascii_lower_seq(name@)[i as int] == ascii_lower(name@[i as int]));
            }
            return false;
        }
        i = i + 1;
    }
    proof {
        assert(ascii_lower_seq(name@) =~= expected@);
    }
    true
}

/// Decides load identity from the module's own filename, when the path
/// could be read at all.
pub fn load_is_impersonated(name: Option<&Vec<u8>>) -> (r: bool)
    ensures
        r == spec_load_is_impersonated(opt_name_view(name)),
{
    match name {
        Some(n) => is_impersonated_filename(n),
        None => false,
    }
}

/// How one run of the startup sequencer ended.
#[derive(Clone, Copy, PartialEq, Eq, Structural, Debug)]
pub enum StartOutcome {
    /// The render hook installed: the tool is up.
    Started,
    /// The hook failed: the tool ejects its injected presence rather than
    /// leave the host half-initialized. It does not retry.
    Ejected,
}

/// The startup sequencer. Applies the entry-short-circuit patch
/// unconditionally before anything else, then hands control to the render
/// hook subsystem; `hook_installed` is the outcome that subsystem reports
/// for this one attempt. A failed hook ejects the tool.
pub fn start_practice_tool(
    image: &mut HostImage,
    offsets: &OffsetSet,
    hook_installed: bool,
) -> (r: StartOutcome)
    requires
        old(image).wf(),
        sites_in_bounds(*old(image), *offsets),
    ensures
        final(image).wf(),
        final(image).base == old(image).base,
        final(image).protection == old(image).protection,
        sites_in_bounds(*final(image), *offsets),
        final(image).bytes@ == font_patch_step(old(image).bytes@, *offsets),
        r is Started <==> hook_installed,
        r is Ejected <==> !hook_installed,
{
    let _applied: bool = apply_font_patch(image, offsets);
    if hook_installed {
        StartOutcome::Started
    } else {
        StartOutcome::Ejected
    }
}

/// Whether the startup sequencer runs for a given load identity and gate
/// outcome: immediately for a direct load, only behind a passed gate for an
/// impersonation load.
pub open spec fn startup_runs(impersonated: bool, gate_ok: bool) -> bool {
    !impersonated || gate_ok
}

/// The host image's bytes after one whole attach: the no-logo patch lands
/// with the first resolution, the short-circuit patch only if the startup
/// sequencer runs.
pub open spec fn attach_memory(
    mem: Seq<u8>,
    offsets: OffsetSet,
    already_resolved: bool,
    starts: bool,
) -> Seq<u8> {
    let resolved = if already_resolved {
        mem
    } else {
        no_logo_step(mem, offsets)
    };
    if starts {
        font_patch_step(resolved, offsets)
    } else {
        resolved
    }
}

/// How one process-attach event ended.
#[derive(Clone, Copy, PartialEq, Eq, Structural, Debug)]
pub enum AttachOutcome {
    /// The reason code was not first attach: nothing was done.
    Ignored,
    /// The real library could not be resolved: the unrecoverable startup
    /// error. Nothing was changed.
    ResolutionFailed,
    /// Impersonation load whose observation window elapsed without the
    /// required hold: startup never ran for this process session.
    GateTimedOut,
    /// The startup sequencer ran and the tool is up.
    Started,
    /// The startup sequencer ran but the hook failed: the tool ejected.
    Ejected,
}

/// One process-attach event, end to end.
///
/// The decisions are the verified core of the module's lifecycle: resolution
/// is forced unconditionally first, so the proxy forwards from the earliest
/// possible moment whatever else happens; the activation gate is consulted
/// only under an impersonation load; the sequencer runs at most once and only behind a
/// passed gate or a direct load. The platform glue performs the same steps
/// against the real process, feeding in what its loader, key polling and
/// hook subsystem reported, and runs everything after resolution on a
/// spawned background task so the attach callback returns promptly.
pub fn process_attach(
    reason: u32,
    proxy: &mut ProxyState,
    image: &mut HostImage,
    offsets: &OffsetSet,
    resolution: Option<usize>,
    module_name: Option<&Vec<u8>>,
    samples: &Vec<GateSample>,
    hook_installed: bool,
) -> (r: AttachOutcome)
    requires
        old(proxy).wf(),
        old(image).wf(),
        sites_in_bounds(*old(image), *offsets),
        monotone(samples@),
    ensures
        final(proxy).wf(),
        final(image).wf(),
        final(image).base == old(image).base,
        final(image).protection == old(image).protection,
        sites_in_bounds(*final(image), *offsets),
        r is Ignored <==> reason != PROCESS_ATTACH,
        reason != PROCESS_ATTACH ==> *final(proxy) == *old(proxy) && *final(image) == *old(image),
        r is ResolutionFailed <==> (reason == PROCESS_ATTACH && old(proxy).entry is None
            && resolution is None),
        r is ResolutionFailed ==> *final(proxy) == *old(proxy) && *final(image) == *old(image),
        (reason == PROCESS_ATTACH && (old(proxy).entry is Some || resolution is Some)) ==> {
            &&& final(proxy).entry is Some
            &&& *final(proxy) == (if old(proxy).entry is Some {
                *old(proxy)
            } else {
                forced(*old(proxy), resolution->0)
            })
            &&& final(image).bytes@ == attach_memory(
                old(image).bytes@,
                *offsets,
                old(proxy).entry is Some,
                startup_runs(
                    spec_load_is_impersonated(opt_name_view(module_name)),
                    gate_passes(samples@),
                ),
            )
        },
        r is GateTimedOut <==> (reason == PROCESS_ATTACH
            && (old(proxy).entry is Some || resolution is Some)
            && spec_load_is_impersonated(opt_name_view(module_name))
            && !gate_passes(samples@)),
        r is Started <==> (reason == PROCESS_ATTACH
            && (old(proxy).entry is Some || resolution is Some)
            && startup_runs(
                spec_load_is_impersonated(opt_name_view(module_name)),
                gate_passes(samples@),
            ) && hook_installed),
        r is Ejected <==> (reason == PROCESS_ATTACH
            && (old(proxy).entry is Some || resolution is Some)
            && startup_runs(
                spec_load_is_impersonated(opt_name_view(module_name)),
                gate_passes(samples@),
            ) && !hook_installed),
{
    if reason != PROCESS_ATTACH {
        return AttachOutcome::Ignored;
    }
    let forced_now: Result<(), crate::StartupError> = proxy.force(resolution, image, offsets);
    if forced_now.is_err() {
        return AttachOutcome::ResolutionFailed;
    }
    let impersonated: bool = load_is_impersonated(module_name);
    if impersonated {
        let passed: bool = await_rshift(samples);
        if !passed {
            return AttachOutcome::GateTimedOut;
        }
    }
    match start_practice_tool(image, offsets, hook_installed) {
        StartOutcome::Started => AttachOutcome::Started,
        StartOutcome::Ejected => AttachOutcome::Ejected,
    }
}

} // verus!
