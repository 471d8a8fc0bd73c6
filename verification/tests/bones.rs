use cs2_overlay::bones::{all_bones, bone_connections, bone_reads, Bone};

#[test]
fn table_has_every_bone_once() {
    let bones = all_bones();
    assert_eq!(bones.len(), 17);
    for (i, a) in bones.iter().enumerate() {
        for b in bones.iter().skip(i + 1) {
            assert_ne!(a, b);
            assert_ne!(a.name(), b.name());
            assert_ne!(a.index(), b.index());
        }
    }
}

#[test]
fn bone_names_and_slots() {
    assert_eq!(Bone::Head.name(), "head");
    assert_eq!(Bone::Head.index(), 6);
    assert_eq!(Bone::AnkleR.name(), "ankle_R");
    assert_eq!(Bone::AnkleR.index(), 27);
    assert_eq!(Bone::Pelvis.index(), 0);
}

#[test]
fn connections_join_table_bones() {
    let bones = all_bones();
    let lines = bone_connections();
    assert_eq!(lines.len(), 15);
    assert_eq!(lines[0], (Bone::Neck0, Bone::Spine1));
    for (a, b) in lines {
        assert!(bones.contains(&a) && bones.contains(&b));
    }
}

#[test]
fn bone_addresses_follow_slots() {
    let reads = bone_reads(0x1000).unwrap();
    assert_eq!(reads.len(), 17);
    assert_eq!(reads[0], (Bone::Head, 0x1000 + 6 * 32));
    assert_eq!(reads[4], (Bone::Pelvis, 0x1000));
    assert_eq!(reads[16], (Bone::AnkleR, 0x1000 + 27 * 32));
}

#[test]
fn bone_addresses_that_overflow_give_nothing() {
    assert!(bone_reads(usize::MAX - 100).is_none());
}
