use practice_tool::gate::{GateSample, POLL_INTERVAL_MILLIS};
use practice_tool::memory::{HostImage, ImageBase};
use practice_tool::patches::{OffsetSet, FONT_PATCH_BACK_ADJUST};
use practice_tool::proxy::{CallArgs, ProxyState};
use practice_tool::startup::{
    is_impersonated_filename, load_is_impersonated, process_attach, start_practice_tool,
    AttachOutcome, StartOutcome, PROCESS_ATTACH,
};

fn offsets() -> OffsetSet {
    OffsetSet { no_logo: 2, font_patch: FONT_PATCH_BACK_ADJUST + 5 }
}

fn fresh_image() -> HostImage {
    HostImage {
        base: ImageBase { addr: 0x1000 },
        bytes: vec![0x00, 0x00, 0x74, 0x30, 0x00, 0x48, 0x00, 0x00],
        protection: 0x02,
    }
}

fn held_keyspan(from: u64, to: u64) -> Vec<GateSample> {
    let mut samples = Vec::new();
    let mut at = from;
    while at <= to {
        samples.push(GateSample { at, key_down: true });
        at += POLL_INTERVAL_MILLIS;
    }
    samples
}

fn silent_window() -> Vec<GateSample> {
    let mut samples = Vec::new();
    let mut at = 0;
    while at <= 10500 {
        samples.push(GateSample { at, key_down: false });
        at += POLL_INTERVAL_MILLIS;
    }
    samples
}

#[test]
fn impersonated_name_matches_case_insensitively() {
    assert!(is_impersonated_filename(&b"dinput8.dll".to_vec()));
    assert!(is_impersonated_filename(&b"DINPUT8.DLL".to_vec()));
    assert!(is_impersonated_filename(&b"DiNpUt8.dLl".to_vec()));
    assert!(!is_impersonated_filename(&b"xinput1_3.dll".to_vec()));
    assert!(!is_impersonated_filename(&b"dinput8.dl".to_vec()));
    assert!(!is_impersonated_filename(&b"practice_tool.dll".to_vec()));
}

#[test]
fn an_unreadable_module_path_counts_as_a_direct_load() {
    assert!(!load_is_impersonated(None));
    assert!(load_is_impersonated(Some(&b"dinput8.dll".to_vec())));
}

#[test]
fn impersonated_load_with_failed_gesture_never_starts() {
    let mut proxy = ProxyState::new();
    let mut image = fresh_image();
    let name = b"dinput8.dll".to_vec();
    let samples = silent_window();
    let outcome = process_attach(
        PROCESS_ATTACH,
        &mut proxy,
        &mut image,
        &offsets(),
        Some(0xBEEF),
        Some(&name),
        &samples,
        true,
    );
    assert_eq!(outcome, AttachOutcome::GateTimedOut);
    // The no-logo patch landed with resolution, but the startup sequencer
    // never ran: the font site still holds its original byte.
    assert_eq!(image.bytes, vec![0x00, 0x00, 0x75, 0x30, 0x00, 0x48, 0x00, 0x00]);
    // Forwarded calls still succeed throughout: the entry point resolved.
    let args =
        CallArgs { instance: 1, version: 8, interface_id: 2, out_param: 3, outer_unknown: 0 };
    let plan = proxy.forward(args);
    assert_eq!(plan.entry, 0xBEEF);
    assert_eq!(plan.args, args);
}

#[test]
fn impersonated_load_with_the_gesture_starts() {
    let mut proxy = ProxyState::new();
    let mut image = fresh_image();
    let name = b"DINPUT8.DLL".to_vec();
    let samples = held_keyspan(0, 2500);
    let outcome = process_attach(
        PROCESS_ATTACH,
        &mut proxy,
        &mut image,
        &offsets(),
        Some(0xBEEF),
        Some(&name),
        &samples,
        true,
    );
    assert_eq!(outcome, AttachOutcome::Started);
    assert_eq!(image.bytes, vec![0x00, 0x00, 0x75, 0x30, 0x00, 0xC3, 0x00, 0x00]);
}

#[test]
fn direct_load_starts_without_gating() {
    let mut proxy = ProxyState::new();
    let mut image = fresh_image();
    let name = b"practice_tool.dll".to_vec();
    // No key was ever pressed: a direct load must not wait on the
    // activation gate.
    let outcome = process_attach(
        PROCESS_ATTACH,
        &mut proxy,
        &mut image,
        &offsets(),
        Some(0xBEEF),
        Some(&name),
        &Vec::new(),
        true,
    );
    assert_eq!(outcome, AttachOutcome::Started);
    // Both patches were attempted and, with pristine sites, both applied.
    assert_eq!(image.bytes, vec![0x00, 0x00, 0x75, 0x30, 0x00, 0xC3, 0x00, 0x00]);
    assert_eq!(proxy.entry, Some(0xBEEF));
    assert_eq!(proxy.resolutions, 1);
}

#[test]
fn other_lifecycle_reasons_are_ignored() {
    let mut proxy = ProxyState::new();
    let mut image = fresh_image();
    let before = image.bytes.clone();
    for reason in [0u32, 2, 3, 4] {
        let outcome = process_attach(
            reason,
            &mut proxy,
            &mut image,
            &offsets(),
            Some(0xBEEF),
            None,
            &Vec::new(),
            true,
        );
        assert_eq!(outcome, AttachOutcome::Ignored);
    }
    assert_eq!(proxy.entry, None);
    assert_eq!(image.bytes, before);
}

#[test]
fn unresolvable_real_library_aborts_the_attach() {
    let mut proxy = ProxyState::new();
    let mut image = fresh_image();
    let before = image.bytes.clone();
    let outcome = process_attach(
        PROCESS_ATTACH,
        &mut proxy,
        &mut image,
        &offsets(),
        None,
        Some(&b"dinput8.dll".to_vec()),
        &held_keyspan(0, 2500),
        true,
    );
    assert_eq!(outcome, AttachOutcome::ResolutionFailed);
    assert_eq!(proxy.entry, None);
    assert_eq!(image.bytes, before);
}

#[test]
fn hook_failure_ejects_after_patching() {
    let mut proxy = ProxyState::new();
    let mut image = fresh_image();
    let outcome = process_attach(
        PROCESS_ATTACH,
        &mut proxy,
        &mut image,
        &offsets(),
        Some(0xBEEF),
        Some(&b"tool.dll".to_vec()),
        &Vec::new(),
        false,
    );
    assert_eq!(outcome, AttachOutcome::Ejected);
    // The sequencer patches before the hook outcome is known, so both
    // patches landed even though the tool then ejected.
    assert_eq!(image.bytes, vec![0x00, 0x00, 0x75, 0x30, 0x00, 0xC3, 0x00, 0x00]);
}

#[test]
fn the_sequencer_alone_patches_then_follows_the_hook_outcome() {
    let mut image = fresh_image();
    let up = start_practice_tool(&mut image, &offsets(), true);
    assert_eq!(up, StartOutcome::Started);
    assert_eq!(image.bytes[5], 0xC3);

    let mut image2 = fresh_image();
    let down = start_practice_tool(&mut image2, &offsets(), false);
    assert_eq!(down, StartOutcome::Ejected);
    assert_eq!(image2.bytes[5], 0xC3);
}

#[test]
fn an_attach_on_an_already_resolved_proxy_does_not_patch_again() {
    let mut proxy = ProxyState::new();
    let mut image = fresh_image();
    proxy.force(Some(0xBEEF), &mut image, &offsets()).unwrap();
    // Put the original jump back, as if a foreign agent had undone it: a
    // second attach must not resolve or patch the logo site again.
    image.bytes[2] = 0x74;
    let outcome = process_attach(
        PROCESS_ATTACH,
        &mut proxy,
        &mut image,
        &offsets(),
        Some(0xDEAD),
        Some(&b"dinput8.dll".to_vec()),
        &silent_window(),
        true,
    );
    assert_eq!(outcome, AttachOutcome::GateTimedOut);
    assert_eq!(proxy.entry, Some(0xBEEF));
    assert_eq!(proxy.resolutions, 1);
    assert_eq!(image.bytes[2], 0x74);
}
