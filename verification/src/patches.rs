//! The two patch sites the host integration requires.
//!
//! Both are independent uses of the generic patcher: a two-byte
//! conditional-jump flip that disables the splash logo, and a single-byte
//! function-entry short-circuit that prevents a crash in the host's font
//! handling. Offsets come from a per-version table resolved once at startup
//! and are relative to the host image's base address.

use vstd::prelude::*;

use crate::memory::{apply_patch, patch_step, HostImage, ImageBase};

verus! {

/// The named offsets for the running host version, resolved once from the
/// version table and immutable afterwards. Offsets are relative to the
/// image base, as distinct from base and target addresses.
#[derive(Clone, Copy, PartialEq, Eq, Structural, Debug)]
pub struct OffsetSet {
    pub no_logo: usize,
    pub font_patch: usize,
}

/// The font-patch site lies this many bytes before the tabulated offset.
pub const FONT_PATCH_BACK_ADJUST: usize = 0x24;

/// First byte of a `jump if equal` at the logo branch.
pub const NO_LOGO_EXPECTED_0: u8 = 0x74;
/// Second byte of the jump at the logo branch: the displacement, kept as is.
pub const NO_LOGO_EXPECTED_1: u8 = 0x30;
/// First byte of a `jump if not equal`: the flipped branch.
pub const NO_LOGO_REPLACEMENT_0: u8 = 0x75;

/// Expected first byte of the short-circuited function's entry.
pub const FONT_PATCH_EXPECTED: u8 = 0x48;
/// An unconditional-return byte, making the function a no-op.
pub const FONT_PATCH_REPLACEMENT: u8 = 0xC3;

/// The absolute address of the no-logo patch site.
pub open spec fn spec_no_logo_target(base: ImageBase, offsets: OffsetSet) -> int {
    base.addr + offsets.no_logo
}

/// The absolute address of the font-patch site: the fixed negative
/// adjustment is part of the site, not of the tabulated offset.
pub open spec fn spec_font_patch_target(base: ImageBase, offsets: OffsetSet) -> int {
    base.addr + offsets.font_patch - FONT_PATCH_BACK_ADJUST
}

/// Whether both patch sites of `offsets` lie within `image`, with the
/// font-patch adjustment applicable.
pub open spec fn sites_in_bounds(image: HostImage, offsets: OffsetSet) -> bool {
    &&& image.in_bounds(spec_no_logo_target(image.base, offsets), 2)
    &&& offsets.font_patch >= FONT_PATCH_BACK_ADJUST
    &&& image.in_bounds(spec_font_patch_target(image.base, offsets), 1)
}

/// The expected original bytes at the no-logo site.
pub open spec fn no_logo_expected() -> Seq<u8> {
    seq![NO_LOGO_EXPECTED_0, NO_LOGO_EXPECTED_1]
}

/// The replacement bytes at the no-logo site.
pub open spec fn no_logo_replacement() -> Seq<u8> {
    seq![NO_LOGO_REPLACEMENT_0, NO_LOGO_EXPECTED_1]
}

/// `mem` after the guarded no-logo patch.
pub open spec fn no_logo_step(mem: Seq<u8>, offsets: OffsetSet) -> Seq<u8> {
    patch_step(mem, offsets.no_logo as int, no_logo_expected(), no_logo_replacement())
}

/// `mem` after the guarded font patch.
pub open spec fn font_patch_step(mem: Seq<u8>, offsets: OffsetSet) -> Seq<u8> {
    patch_step(
        mem,
        offsets.font_patch - FONT_PATCH_BACK_ADJUST,
        seq![FONT_PATCH_EXPECTED],
        seq![FONT_PATCH_REPLACEMENT],
    )
}

/// Computes the absolute no-logo patch address from base and offset.
pub fn no_logo_target(base: ImageBase, offsets: &OffsetSet) -> (target: usize)
    requires
        base.addr + offsets.no_logo <= usize::MAX,
    ensures
        target == spec_no_logo_target(base, *offsets),
{
    base.addr + offsets.no_logo
}

/// Computes the absolute font-patch address: the fixed backward adjustment
/// is applied to the tabulated offset, so the target is
/// `base + offset - 0x24`, not `base + offset`.
pub fn font_patch_target(base: ImageBase, offsets: &OffsetSet) -> (target: usize)
    requires
        offsets.font_patch >= FONT_PATCH_BACK_ADJUST,
        base.addr + offsets.font_patch - FONT_PATCH_BACK_ADJUST <= usize::MAX,
    ensures
        target == spec_font_patch_target(base, *offsets),
{
    base.addr + (offsets.font_patch - FONT_PATCH_BACK_ADJUST)
}

/// Flips the `jump if equal` at the logo branch to `jump if not equal`,
/// disabling the splash logo, if and only if the original jump is still in
/// place. Protection is restored either way.
pub fn apply_no_logo(image: &mut HostImage, offsets: &OffsetSet) -> (applied: bool)
    requires
        old(image).wf(),
        sites_in_bounds(*old(image), *offsets),
    ensures
        final(image).wf(),
        final(image).base == old(image).base,
        final(image).protection == old(image).protection,
        sites_in_bounds(*final(image), *offsets),
        applied == (old(image).read(spec_no_logo_target(old(image).base, *offsets), 2)
            == no_logo_expected()),
        final(image).bytes@ == no_logo_step(old(image).bytes@, *offsets),
{
    let base: ImageBase = image.base;
    let target: usize = no_logo_target(base, offsets);
    let expected: Vec<u8> = vec![NO_LOGO_EXPECTED_0, NO_LOGO_EXPECTED_1];
    let replacement: Vec<u8> = vec![NO_LOGO_REPLACEMENT_0, NO_LOGO_EXPECTED_1];
    proof {
        assert(expected@ =~= no_logo_expected());
        assert(replacement@ =~= no_logo_replacement());
    }
    apply_patch(image, target, &expected, &replacement)
}

/// Replaces the first byte of the crashing font routine with an
/// unconditional return, if and only if the expected entry byte is still in
/// place. Protection is restored either way.
pub fn apply_font_patch(image: &mut HostImage, offsets: &OffsetSet) -> (applied: bool)
    requires
        old(image).wf(),
        sites_in_bounds(*old(image), *offsets),
    ensures
        final(image).wf(),
        final(image).base == old(image).base,
        final(image).protection == old(image).protection,
        sites_in_bounds(*final(image), *offsets),
        applied == (old(image).read(spec_font_patch_target(old(image).base, *offsets), 1)
            == seq![FONT_PATCH_EXPECTED]),
        final(image).bytes@ == font_patch_step(old(image).bytes@, *offsets),
{
    let base: ImageBase = image.base;
    let target: usize = font_patch_target(base, offsets);
    let expected: Vec<u8> = vec![FONT_PATCH_EXPECTED];
    let replacement: Vec<u8> = vec![FONT_PATCH_REPLACEMENT];
    proof {
        assert(expected@ =~= seq![FONT_PATCH_EXPECTED]);
        assert(replacement@ =~= seq![FONT_PATCH_REPLACEMENT]);
    }
    apply_patch(image, target, &expected, &replacement)
}

} // verus!
