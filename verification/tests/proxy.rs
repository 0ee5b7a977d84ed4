use practice_tool::memory::{HostImage, ImageBase};
use practice_tool::patches::{OffsetSet, FONT_PATCH_BACK_ADJUST};
use practice_tool::proxy::{CallArgs, ProxyState};
use practice_tool::StartupError;

fn offsets() -> OffsetSet {
    OffsetSet { no_logo: 2, font_patch: FONT_PATCH_BACK_ADJUST + 5 }
}

fn fresh_image() -> HostImage {
    HostImage {
        base: ImageBase { addr: 0x1000 },
        bytes: vec![0x00, 0x00, 0x74, 0x30, 0x00, 0x48, 0x00, 0x00],
        protection: 0x02,
    }
}

fn args(version: u32) -> CallArgs {
    CallArgs { instance: 0x40000, version, interface_id: 0x1234, out_param: 0x5000, outer_unknown: 0 }
}

#[test]
fn first_resolution_memoizes_the_entry_point() {
    let mut proxy = ProxyState::new();
    let mut image = fresh_image();
    let r = proxy.force(Some(0xBEEF), &mut image, &offsets());
    assert_eq!(r, Ok(()));
    assert_eq!(proxy.entry, Some(0xBEEF));
    assert_eq!(proxy.resolutions, 1);
}

#[test]
fn resolution_runs_at_most_once() {
    let mut proxy = ProxyState::new();
    let mut image = fresh_image();
    let first = proxy.force(Some(0xBEEF), &mut image, &offsets());
    assert_eq!(first, Ok(()));
    // Later forces, even ones that could have resolved differently, change
    // nothing: no second load-and-lookup, same memoized entry point.
    for _ in 0..8 {
        let again = proxy.force(Some(0xDEAD), &mut image, &offsets());
        assert_eq!(again, Ok(()));
        assert_eq!(proxy.entry, Some(0xBEEF));
        assert_eq!(proxy.resolutions, 1);
    }
}

#[test]
fn every_forwarded_call_observes_the_same_entry_point() {
    let mut proxy = ProxyState::new();
    let mut image = fresh_image();
    proxy.force(Some(0xBEEF), &mut image, &offsets()).unwrap();
    for version in 0..16 {
        let plan = proxy.forward(args(version));
        assert_eq!(plan.entry, 0xBEEF);
        assert_eq!(plan.args, args(version));
    }
}

#[test]
fn the_real_status_is_delivered_unchanged() {
    let mut proxy = ProxyState::new();
    let mut image = fresh_image();
    proxy.force(Some(0xBEEF), &mut image, &offsets()).unwrap();
    let plan = proxy.forward(args(8));
    assert_eq!(plan.deliver(0), 0);
    assert_eq!(plan.deliver(-2147024809), -2147024809);
    assert_eq!(plan.deliver(1), 1);
}

#[test]
fn failed_first_resolution_is_the_unrecoverable_error() {
    let mut proxy = ProxyState::new();
    let mut image = fresh_image();
    let before = image.bytes.clone();
    let r = proxy.force(None, &mut image, &offsets());
    assert_eq!(r, Err(StartupError::RealLibraryUnresolved));
    assert_eq!(proxy.entry, None);
    assert_eq!(proxy.resolutions, 0);
    assert_eq!(image.bytes, before);
}

#[test]
fn a_failed_attempt_after_resolution_is_ignored() {
    let mut proxy = ProxyState::new();
    let mut image = fresh_image();
    proxy.force(Some(0xBEEF), &mut image, &offsets()).unwrap();
    let r = proxy.force(None, &mut image, &offsets());
    assert_eq!(r, Ok(()));
    assert_eq!(proxy.entry, Some(0xBEEF));
}

#[test]
fn first_resolution_applies_the_no_logo_patch() {
    let mut proxy = ProxyState::new();
    let mut image = fresh_image();
    proxy.force(Some(0xBEEF), &mut image, &offsets()).unwrap();
    // The jump at the no-logo site is flipped; the font site is untouched.
    assert_eq!(image.bytes, vec![0x00, 0x00, 0x75, 0x30, 0x00, 0x48, 0x00, 0x00]);
    // A later force does not patch again, whatever sits at the site now.
    image.bytes[2] = 0x74;
    proxy.force(Some(0xBEEF), &mut image, &offsets()).unwrap();
    assert_eq!(image.bytes[2], 0x74);
}
