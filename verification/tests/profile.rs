use fv_common::{SeamParamFlatId, SeamProfile, SeamProfileMeta, SEAM_PROFILE_SCHEMA};

#[test]
fn a_new_profile_is_empty() {
    let p = SeamProfile::new(false, 9);
    assert!(!p.is_enabled());
    assert_eq!(p.id(), 9);
    assert_eq!(p.schema(), SEAM_PROFILE_SCHEMA);
    assert_eq!(p.name(), "");
    assert_eq!(p.meta().joint_type(), 0);
    assert_eq!(p.v0().to_values(), vec![0; 250]);
    assert_eq!(p.commits(), 0);
}

#[test]
fn new_metadata_is_named_profile() {
    let m = SeamProfileMeta::new();
    assert_eq!(m.name(), "Profile");
    assert_eq!(m.joint_type(), 0);
    assert_eq!(m.joint_type_major, 0);
    assert_eq!(m.joint_type_minor, 0);
    assert_eq!(m.version, 0);
    assert_eq!(SeamProfileMeta::default().name(), "");
}

#[test]
fn joint_type_fields_are_derived_from_the_joint_type() {
    let mut m = SeamProfileMeta::new();
    m.set_joint_type(0x0a0b);
    assert_eq!(m.joint_type(), 0x0a0b);
    assert_eq!(m.joint_type_major, 0x0a);
    assert_eq!(m.joint_type_minor, 0x0b);
    m.set_joint_type(-1);
    assert_eq!(m.joint_type_major, -1);
    assert_eq!(m.joint_type_minor, 0xff);
    m.set_name("x");
    assert_eq!(m.name(), "x");
    assert_eq!(m.clone().name(), "x");
}

#[test]
fn every_mutation_counts_one_change() {
    let mut p = SeamProfile::new(false, 0);
    p.set_enabled(true);
    assert_eq!(p.commits(), 1);
    p.set_id(4);
    assert_eq!(p.commits(), 2);
    p.set_name("Butt");
    assert_eq!(p.commits(), 3);
    p.set_v0_value_i32(SeamParamFlatId::KpGap1, 12);
    assert_eq!(p.commits(), 4);
    p.set_v0_value_f32(SeamParamFlatId::KpGap2, 0.5f32.to_bits());
    assert_eq!(p.commits(), 5);
    p.set_v0_value_i32(SeamParamFlatId::Invalid, 12);
    assert_eq!(p.commits(), 6);
    p.commit();
    assert_eq!(p.commits(), 7);
    assert!(p.is_enabled());
    assert_eq!(p.id(), 4);
    assert_eq!(p.name(), "Butt");
    assert_eq!(p.v0().value_i32(SeamParamFlatId::KpGap1), 12);
    assert_eq!(f32::from_bits(p.v0().value_f32(SeamParamFlatId::KpGap2)), 0.5);
    p.flush();
    assert_eq!(p.commits(), 0);
    assert_eq!(p.name(), "Butt");
}

#[test]
fn a_write_to_the_table_derives_the_joint_type_again() {
    let mut p = SeamProfile::new(true, 1);
    p.set_v0_value_i32(SeamParamFlatId::SfJointType, 0x7700_0203);
    assert_eq!(p.meta().joint_type(), 0x0203);
    assert_eq!(p.meta().joint_type_major, 2);
    assert_eq!(p.meta().joint_type_minor, 3);
    p.set_v0_value_i32(SeamParamFlatId::XpRoiW, 640);
    assert_eq!(p.meta().joint_type(), 0x0203);
}

#[test]
fn a_write_through_the_borrowed_table_is_not_counted() {
    let mut p = SeamProfile::new(true, 1);
    p.v0_mut().set_value_i32(SeamParamFlatId::XpRoiH, 480);
    assert_eq!(p.v0().value_i32(SeamParamFlatId::XpRoiH), 480);
    assert_eq!(p.commits(), 0);
    assert_eq!(p.meta_mut().name(), "");
}

#[test]
fn merge_takes_flag_name_joint_type_and_table() {
    let mut src = SeamProfile::new(true, 200);
    src.set_name("Source");
    src.set_v0_value_i32(SeamParamFlatId::SfJointType, 0x0104);
    src.set_v0_value_i32(SeamParamFlatId::OpGapType, 77);
    let mut dst = SeamProfile::new(false, 5);
    dst.set_name("Target");
    dst.flush();
    dst.merge(&src);
    assert!(dst.is_enabled());
    assert_eq!(dst.id(), 5);
    assert_eq!(dst.name(), "Source");
    assert_eq!(dst.meta().joint_type(), 0x0104);
    assert_eq!(dst.meta().joint_type_major, 1);
    assert_eq!(dst.meta().joint_type_minor, 4);
    assert_eq!(dst.v0().to_values(), src.v0().to_values());
    assert_eq!(dst.commits(), 2);
}

#[test]
fn the_merge_for_loaded_profiles_counts_nothing() {
    let mut src = SeamProfile::new(true, 200);
    src.set_name("Loaded");
    src.set_v0_value_i32(SeamParamFlatId::VpGapMax, -9);
    let mut dst = SeamProfile::new(false, 5);
    dst.merge_with_commit(&src);
    assert!(dst.is_enabled());
    assert_eq!(dst.name(), "Loaded");
    assert_eq!(dst.v0().value_i32(SeamParamFlatId::VpGapMax), -9);
    assert_eq!(dst.commits(), 0);
    assert_eq!(dst.id(), 5);
}

#[test]
fn a_default_profile_is_a_fresh_one_without_schema() {
    let p = SeamProfile::default();
    assert_eq!(p.schema(), "");
    assert!(!p.is_enabled());
    assert_eq!(p.id(), 0);
    assert_eq!(p.name(), "");
    assert_eq!(p.commits(), 0);
    assert_eq!(p.v0().to_values(), vec![0; 250]);
}
