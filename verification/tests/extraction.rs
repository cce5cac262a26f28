use glassmarlin::bundle::{plan_extraction, ExtractionPlan, StampRead};

#[test]
fn matching_stamp_is_reused() {
    let stamp = StampRead::Found("0.1.0\n".to_string());
    assert_eq!(plan_extraction(&stamp, "0.1.0", 1000, false), ExtractionPlan::Reuse);
    assert_eq!(plan_extraction(&stamp, "0.1.0", 0, false), ExtractionPlan::Reuse);
}

#[test]
fn other_version_is_replaced() {
    let stamp = StampRead::Found("0.0.9".to_string());
    assert_eq!(
        plan_extraction(&stamp, "0.1.0", 1000, false),
        ExtractionPlan::Extract { clear_old: true }
    );
}

#[test]
fn unreadable_stamp_is_replaced() {
    assert_eq!(
        plan_extraction(&StampRead::Unreadable, "0.1.0", 5, false),
        ExtractionPlan::Extract { clear_old: true }
    );
    assert_eq!(
        plan_extraction(&StampRead::Unreadable, "0.1.0", 0, false),
        ExtractionPlan::Refuse { clear_old: true }
    );
}

#[test]
fn first_launch_extracts() {
    assert_eq!(
        plan_extraction(&StampRead::Missing, "0.1.0", 5, false),
        ExtractionPlan::Extract { clear_old: false }
    );
}

#[test]
fn empty_bundle_is_refused() {
    assert_eq!(
        plan_extraction(&StampRead::Missing, "0.1.0", 0, false),
        ExtractionPlan::Refuse { clear_old: false }
    );
    assert_eq!(
        plan_extraction(&StampRead::Found("0.0.1".to_string()), "0.1.0", 0, false),
        ExtractionPlan::Refuse { clear_old: true }
    );
}

#[test]
fn development_build_uses_a_runtime_placed_by_hand() {
    assert_eq!(
        plan_extraction(&StampRead::Missing, "0.1.0", 0, true),
        ExtractionPlan::Reuse
    );
    assert_eq!(
        plan_extraction(&StampRead::Found("0.0.1".to_string()), "0.1.0", 0, true),
        ExtractionPlan::Reuse
    );
    assert_eq!(
        plan_extraction(&StampRead::Unreadable, "0.1.0", 0, true),
        ExtractionPlan::Reuse
    );
}

#[test]
fn bundle_wins_over_a_present_runtime_of_another_version() {
    assert_eq!(
        plan_extraction(&StampRead::Found("0.0.1".to_string()), "0.1.0", 10, true),
        ExtractionPlan::Extract { clear_old: true }
    );
    assert_eq!(
        plan_extraction(&StampRead::Missing, "0.1.0", 10, true),
        ExtractionPlan::Extract { clear_old: false }
    );
}

#[test]
fn written_stamp_is_recognised_next_launch() {
    let version = "0.1.0";
    let written = StampRead::Found(version.to_string());
    assert_eq!(plan_extraction(&written, version, 12345, false), ExtractionPlan::Reuse);
}

#[test]
fn bundle_is_decompressed() {
    let archive: Vec<u8> = b"tar archive bytes, repeated repeated repeated".to_vec();
    let blob = zstd::stream::encode_all(&archive[..], 19).unwrap();
    assert_ne!(blob, archive);
    let out = glassmarlin::bundle::decompress_bundle(&blob).unwrap();
    assert_eq!(out, archive);
}

#[test]
fn corrupt_bundle_is_rejected() {
    let r = glassmarlin::bundle::decompress_bundle(b"definitely not zstd");
    match r {
        Err(e) => assert_eq!(e.message(), "embedded bundle is not a valid zstd stream"),
        Ok(_) => panic!("garbage must not decode"),
    }
}
