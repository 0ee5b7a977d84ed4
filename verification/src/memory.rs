//! Model of the host process image and the byte-level code patcher.
//!
//! The host image is the memory-mapped code of the running host executable:
//! a base address, the bytes mapped from that address on, and the protection
//! mode of the patchable region. The patcher overwrites a small number of
//! bytes only after verifying the expected original bytes, and always
//! restores the protection mode it found.

use vstd::prelude::*;

verus! {

/// A protection value that allows both executing and writing the region.
/// Writes to the image are only legal under this mode.
pub const EXECUTE_READWRITE: u32 = 0x40;

/// The base address at which the host image is mapped, as distinct from a
/// relative offset into the image or an absolute target address.
#[derive(Clone, Copy, PartialEq, Eq, Structural, Debug)]
pub struct ImageBase {
    pub addr: usize,
}

/// The host process image: the mapped bytes starting at `base` and the
/// current protection mode of the patchable region. The byte at absolute
/// address `base.addr + i` is `bytes[i]`.
pub struct HostImage {
    pub base: ImageBase,
    pub bytes: Vec<u8>,
    pub protection: u32,
}

/// `mem` with `pat` written at index `off`, all other bytes unchanged.
pub open spec fn splice(mem: Seq<u8>, off: int, pat: Seq<u8>) -> Seq<u8> {
    mem.map(|i: int, b: u8| if off <= i < off + pat.len() { pat[i - off] } else { b })
}

/// `mem` after a guarded patch at index `off`: written only if the bytes
/// there equal `expected`, otherwise left untouched.
pub open spec fn patch_step(mem: Seq<u8>, off: int, expected: Seq<u8>, replacement: Seq<u8>) -> Seq<u8> {
    if mem.subrange(off, off + expected.len() as int) == expected {
        splice(mem, off, replacement)
    } else {
        mem
    }
}

impl HostImage {
    /// The whole image lies within the address space.
    pub open spec fn wf(self) -> bool {
        self.base.addr + self.bytes@.len() <= usize::MAX
    }

    /// The `n` bytes from absolute address `addr` lie within the image.
    pub open spec fn in_bounds(self, addr: int, n: int) -> bool {
        self.base.addr <= addr && addr + n <= self.base.addr + self.bytes@.len()
    }

    /// The bytes currently mapped at absolute addresses `addr .. addr + n`.
    pub open spec fn read(self, addr: int, n: int) -> Seq<u8> {
        self.bytes@.subrange(addr - self.base.addr, addr - self.base.addr + n)
    }

    /// Sets the protection mode of the patchable region and hands back the
    /// mode that was in force before, so a caller can restore it. Models a
    /// page-protection change: it never alters the mapped bytes.
    pub fn protect(&mut self, new_protection: u32) -> (previous: u32)
        ensures
            final(self).protection == new_protection,
            previous == old(self).protection,
            final(self).base == old(self).base,
            final(self).bytes@ == old(self).bytes@,
    {
        let previous: u32 = self.protection;
        self.protection = new_protection;
        previous
    }

    /// Writes one byte at an absolute address. Only legal while the region
    /// is in the execute-and-write protection mode.
    pub fn write_byte(&mut self, addr: usize, value: u8)
        requires
            old(self).wf(),
            old(self).in_bounds(addr as int, 1),
            old(self).protection == EXECUTE_READWRITE,
        ensures
            final(self).base == old(self).base,
            final(self).protection == old(self).protection,
            final(self).bytes@ == old(self).bytes@.update(addr - old(self).base.addr, value),
    {
        let idx: usize = addr - self.base.addr;
        self.bytes.set(idx, value);
    }
}

/// Whether two byte vectors hold the same bytes.
pub fn bytes_equal(a: &Vec<u8>, b: &Vec<u8>) -> (r: bool)
    ensures
        r == (a@ == b@),
{
    if a.len() != b.len() {
        assert(a@ != b@);
        return false;
    }
    let n: usize = a.len();
    let mut i: usize = 0;
    while i < n
        invariant
            i <= n,
            n == a@.len(),
            n == b@.len(),
            forall|j: int| 0 <= j < i ==> a@[j] == b@[j],
        decreases n - i,
    {
        if a[i] != b[i] {
            assert(a@ != b@);
            return false;
        }
        i = i + 1;
    }
    proof {
        assert(a@ =~= b@);
    }
    true
}

/// Law: a guarded patch is applied at most once. Once the replacement is in
/// place the expected original bytes are gone, so running the same patch
/// again changes nothing — and a site that never matched stays untouched
/// however often the patch is attempted.
pub proof fn lemma_patch_step_applies_at_most_once(
    mem: Seq<u8>,
    off: int,
    expected: Seq<u8>,
    replacement: Seq<u8>,
)
    requires
        0 <= off,
        off + expected.len() <= mem.len(),
        expected.len() == replacement.len(),
        expected != replacement,
    ensures
        patch_step(patch_step(mem, off, expected, replacement), off, expected, replacement)
            == patch_step(mem, off, expected, replacement),
{
    if mem.subrange(off, off + expected.len() as int) == expected {
        let once = splice(mem, off, replacement);
        assert(once.subrange(off, off + expected.len() as int) =~= replacement);
        assert(once.subrange(off, off + expected.len() as int) != expected);
    }
}

/// Conditionally overwrites `replacement` at absolute address `target`.
///
/// The bytes currently at the target are compared against `expected` without
/// touching the protection mode. On a mismatch — a normal condition meaning
/// a different host version, an already applied patch, or a foreign patch —
/// nothing is written and `applied` is `false`. On a match, the region is
/// made writable, the replacement is written, and the previous protection
/// mode is restored; the three steps are always paired in that order.
pub fn apply_patch(
    image: &mut HostImage,
    target: usize,
    expected: &Vec<u8>,
    replacement: &Vec<u8>,
) -> (applied: bool)
    requires
        old(image).wf(),
        expected@.len() == replacement@.len(),
        old(image).in_bounds(target as int, expected@.len() as int),
    ensures
        final(image).wf(),
        final(image).base == old(image).base,
        final(image).protection == old(image).protection,
        applied == (old(image).read(target as int, expected@.len() as int) == expected@),
        final(image).bytes@ == patch_step(
            old(image).bytes@,
            target - old(image).base.addr,
            expected@,
            replacement@,
        ),
{
    let n: usize = expected.len();
    let off: usize = target - image.base.addr;

    let mut i: usize = 0;
    while i < n
        invariant
            i <= n,
            n == expected@.len(),
            off == target - image.base.addr,
            image == old(image),
            image.wf(),
            image.in_bounds(target as int, n as int),
            forall|j: int| 0 <= j < i ==> image.bytes@[off + j] == expected@[j],
        decreases n - i,
    {
        if image.bytes[off + i] != expected[i] {
            proof {
                assert(old(image).read(target as int, n as int)[i as int] != expected@[i as int]);
            }
            return false;
        }
        i = i + 1;
    }
    proof {
        assert(old(image).read(target as int, n as int) =~= expected@);
    }

    let saved: u32 = image.protect(EXECUTE_READWRITE);
    let mut j: usize = 0;
    while j < n
        invariant
            j <= n,
            n == replacement@.len(),
            n == expected@.len(),
            off == target - image.base.addr,
            image.wf(),
            image.base == old(image).base,
            image.in_bounds(target as int, n as int),
            image.protection == EXECUTE_READWRITE,
            image.bytes@.len() == old(image).bytes@.len(),
            forall|k: int| 0 <= k < j ==> image.bytes@[off + k] == replacement@[k],
            forall|k: int| 0 <= k < image.bytes@.len() && !(off <= k < off + j)
                ==> image.bytes@[k] == old(image).bytes@[k],
        decreases n - j,
    {
        image.write_byte(target + j, replacement[j]);
        j = j + 1;
    }
    let _restored: u32 = image.protect(saved);
    proof {
        assert(image.bytes@ =~= splice(old(image).bytes@, off as int, replacement@));
    }
    true
}

} // verus!
