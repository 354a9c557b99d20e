use fv_common::{
    SeamParamFlatId, SeamParamKpId, SeamParamOcId, SeamParamOpId, SeamParamSfId, SeamParamValue,
    SeamParamVpId, SeamParamXpId, SeamParamsV0,
};

#[test]
fn value_keeps_its_bits_in_both_readings() {
    let v = SeamParamValue::from_i32(-1025638400);
    assert_eq!(v.i32_val, -1025638400);
    assert_eq!(v.f32_bits(), 0xC2DE_0000);
    assert_eq!(f32::from_bits(v.f32_bits()), -111.0f32);
    let w = SeamParamValue::from_f32(1.5f32.to_bits());
    assert_eq!(w.i32_val, 0x3FC0_0000);
    assert_eq!(i32::from(w), 0x3FC0_0000);
    assert_eq!(SeamParamValue::from(7).i32_val, 7);
    assert_eq!(SeamParamValue::default().i32_val, 0);
    assert_eq!(SeamParamValue::from_f32(0xFFFF_FFFF).i32_val, -1);
}

#[test]
fn a_written_register_reads_back_bit_for_bit() {
    let mut t = SeamParamsV0::default();
    for i in 0..250usize {
        let id = SeamParamFlatId::from(i);
        let x = (i as i32) * 7919 - 1_000_000;
        t.set_value_i32(id, x);
        assert_eq!(t.value_i32(id), x);
        assert_eq!(t.value_f32(id), x as u32);
    }
    t.set_value_f32(SeamParamFlatId::KpAngle1, 2.25f32.to_bits());
    assert_eq!(f32::from_bits(t.value_f32(SeamParamFlatId::KpAngle1)), 2.25f32);
    assert_eq!(t.value_i32(SeamParamFlatId::KpAngle1), 0x4010_0000);
    assert_eq!(t.value_i32(SeamParamFlatId::KpAngle2), 31 * 7919 - 1_000_000);
}

#[test]
fn an_invalid_index_reads_zero_and_writes_nothing() {
    let mut t = SeamParamsV0::default();
    t.set_value_i32(SeamParamFlatId::XpRoiX, 5);
    let before = t.to_values();
    t.set_value_i32(SeamParamFlatId::Invalid, 77);
    t.set_value_f32(SeamParamFlatId::Invalid, 77);
    t.set_value_i32(SeamParamFlatId::from(250), 77);
    t.set_value_i32(SeamParamFlatId::from(-3), 77);
    assert_eq!(t.to_values(), before);
    assert_eq!(t.value_i32(SeamParamFlatId::Invalid), 0);
    assert_eq!(t.value_f32(SeamParamFlatId::Invalid), 0);
    assert_eq!(f32::from_bits(t.value_f32(SeamParamFlatId::Invalid)), 0.0f32);
    assert_eq!(t.xp_i32(SeamParamXpId::Invalid), 0);
    assert_eq!(t.xp_f32(SeamParamXpId::Invalid), 0);
    assert_eq!(t.kp_i32(SeamParamKpId::Invalid), 0);
    assert_eq!(t.kp_f32(SeamParamKpId::Invalid), 0);
    assert_eq!(t.op_i32(SeamParamOpId::Invalid), 0);
    assert_eq!(t.op_f32(SeamParamOpId::Invalid), 0);
    assert_eq!(t.vp_i32(SeamParamVpId::Invalid), 0);
    assert_eq!(t.vp_f32(SeamParamVpId::Invalid), 0);
    assert_eq!(t.oc_i32(SeamParamOcId::Invalid), 0);
    assert_eq!(t.oc_f32(SeamParamOcId::Invalid), 0);
    assert_eq!(t.sf_i32(SeamParamSfId::Invalid), 0);
    assert_eq!(t.sf_f32(SeamParamSfId::Invalid), 0);
    assert_eq!(t.xp_en(SeamParamXpId::Invalid), 0);
    assert_eq!(t.kp_en(SeamParamKpId::Invalid), 0);
    assert_eq!(t.op_en(SeamParamOpId::Invalid), 0);
    assert_eq!(t.vp_en(SeamParamVpId::Invalid), 0);
    assert_eq!(t.oc_en(SeamParamOcId::Invalid), 0);
}

#[test]
fn partitions_lie_side_by_side_in_the_flat_space() {
    let values: Vec<i32> = (0..250).map(|i| 1000 + i).collect();
    let t = SeamParamsV0::from_values(&values);
    assert_eq!(t.xp_i32(SeamParamXpId::ExposureControl), 1000);
    assert_eq!(t.xp_i32(SeamParamXpId::Xp29), 1029);
    assert_eq!(t.kp_i32(SeamParamKpId::Angle1), 1030);
    assert_eq!(t.kp_i32(SeamParamKpId::Kp29), 1059);
    assert_eq!(t.op_i32(SeamParamOpId::DetectMethod), 1060);
    assert_eq!(t.op_i32(SeamParamOpId::Op59), 1119);
    assert_eq!(t.vp_i32(SeamParamVpId::AngleMin), 1120);
    assert_eq!(t.vp_i32(SeamParamVpId::L4Length), 1179);
    assert_eq!(t.oc_i32(SeamParamOcId::FeaturePoint), 1180);
    assert_eq!(t.oc_i32(SeamParamOcId::Oc59), 1239);
    assert_eq!(t.sf_i32(SeamParamSfId::JointType), 1240);
    assert_eq!(t.sf_i32(SeamParamSfId::Version), 1249);
    assert_eq!(t.kp_f32(SeamParamKpId::Angle2), 1031u32);
    assert_eq!(t.op_f32(SeamParamOpId::Direction), 1061u32);
    assert_eq!(t.vp_f32(SeamParamVpId::AngleMax), 1121u32);
    assert_eq!(t.oc_f32(SeamParamOcId::FilterStrength), 1181u32);
    assert_eq!(t.sf_f32(SeamParamSfId::XpEn), 1241u32);
    assert_eq!(t.xp_f32(SeamParamXpId::ExposureFramerate), 1001u32);

    let parts = t.parts();
    assert_eq!(parts.xp[0].i32_val, 1000);
    assert_eq!(parts.kp[0].i32_val, 1030);
    assert_eq!(parts.op[59].i32_val, 1119);
    assert_eq!(parts.vp[0].i32_val, 1120);
    assert_eq!(parts.oc[59].i32_val, 1239);
    assert_eq!(parts.sf[9].i32_val, 1249);
    let back = SeamParamsV0::from_parts(&parts);
    assert_eq!(back.to_values(), values);
}

#[test]
fn joint_type_is_split_into_its_two_bytes() {
    let mut t = SeamParamsV0::default();
    t.set_value_i32(SeamParamFlatId::SfJointType, 0x0012_0304);
    assert_eq!(t.joint_type(), 0x0304);
    assert_eq!(t.joint_type_major(), 0x03);
    assert_eq!(t.joint_type_minor(), 0x04);
    for sf0 in [0, 1, 255, 256, 0xffff, 0x1_0000, -1, i32::MIN, i32::MAX, 0x7fff_1234] {
        t.set_value_i32(SeamParamFlatId::SfJointType, sf0);
        assert_eq!(t.joint_type(), sf0 & 0xffff);
        assert_eq!(t.joint_type_major(), t.joint_type() >> 8);
        assert_eq!(t.joint_type_minor(), t.joint_type() & 0xff);
    }
    t.set_value_i32(SeamParamFlatId::SfVersion, 0x0abc_0007);
    assert_eq!(t.version(), 7);
}

#[test]
fn single_register_enable_bits_stay_in_place() {
    let mut t = SeamParamsV0::default();
    t.set_value_i32(SeamParamFlatId::SfXpEn, 0b1000);
    t.set_value_i32(SeamParamFlatId::SfKpEn, 1 << 29);
    assert_eq!(t.xp_en(SeamParamXpId::ExposureTime), 8);
    assert_eq!(t.xp_en(SeamParamXpId::ExposureRsv), 0);
    assert_eq!(t.kp_en(SeamParamKpId::Kp29), 1 << 29);
    assert_eq!(t.kp_en(SeamParamKpId::Angle1), 0);
}

fn pair_of(lo: SeamParamFlatId) -> SeamParamFlatId {
    SeamParamFlatId::from(lo.index() + 1)
}

fn check_pair(lo: SeamParamFlatId, read: &dyn Fn(&SeamParamsV0, usize) -> i32) {
    for k in 0..60usize {
        let mut t = SeamParamsV0::default();
        let (reg, bit) = if k < 30 { (lo, k) } else { (pair_of(lo), k - 30) };
        t.set_value_i32(reg, t.value_i32(reg) | (1 << bit));
        for j in 0..60usize {
            assert_eq!(read(&t, j), if j == k { 1 } else { 0 });
        }
        t.set_value_i32(reg, t.value_i32(reg) & !(1 << bit));
        assert_eq!(read(&t, k), 0);
    }
}

#[test]
fn pair_enable_bits_cross_the_register_split() {
    check_pair(SeamParamFlatId::SfOpEn1, &|t, k| t.op_en(SeamParamOpId::from(k)));
    check_pair(SeamParamFlatId::SfVpEn1, &|t, k| t.vp_en(SeamParamVpId::from(k)));
    check_pair(SeamParamFlatId::SfOcEn1, &|t, k| t.oc_en(SeamParamOcId::from(k)));

    let mut t = SeamParamsV0::default();
    t.set_value_i32(SeamParamFlatId::SfOpEn1, 1 << 29);
    t.set_value_i32(SeamParamFlatId::SfOpEn2, 1);
    assert_eq!(t.op_en(SeamParamOpId::Op29), 1);
    assert_eq!(t.op_en(SeamParamOpId::Op30), 1);
    assert_eq!(t.op_en(SeamParamOpId::Op28), 0);
    assert_eq!(t.op_en(SeamParamOpId::Op31), 0);
    assert_eq!(t.op_en_bits(), (1i64 << 29) | (1i64 << 30));
}

#[test]
fn enable_bitmap_joins_the_two_registers() {
    let mut t = SeamParamsV0::default();
    t.set_value_i32(SeamParamFlatId::SfVpEn1, -1);
    t.set_value_i32(SeamParamFlatId::SfVpEn2, 5);
    assert_eq!(t.vp_en_bits(), (5i64 << 30) | 0x3FFF_FFFF);
    t.set_value_i32(SeamParamFlatId::SfOcEn1, 0x4000_0001);
    t.set_value_i32(SeamParamFlatId::SfOcEn2, -1);
    assert_eq!(t.oc_en_bits(), (-1i64 << 30) | 1);
    assert_eq!(t.oc_en(SeamParamOcId::Oc59), 1);
    assert_eq!(t.oc_en(SeamParamOcId::FilterStrength), 0);
}

#[test]
fn merge_overwrites_the_whole_table() {
    let a: Vec<i32> = (0..250).map(|i| i * 3).collect();
    let mut t = SeamParamsV0::from_values(&[9; 250]);
    let other = SeamParamsV0::from_values(&a);
    t.merge(&other);
    assert_eq!(t.to_values(), a);
}

#[test]
fn a_list_fills_the_table_from_its_start() {
    let t = SeamParamsV0::from_values(&[1, 2, 3]);
    let v = t.to_values();
    assert_eq!(v.len(), 250);
    assert_eq!(&v[..3], &[1, 2, 3]);
    assert!(v[3..].iter().all(|x| *x == 0));
    let long: Vec<i32> = (0..300).collect();
    let t = SeamParamsV0::from_values(&long);
    assert_eq!(t.to_values(), long[..250].to_vec());
    assert_eq!(SeamParamsV0::from_values(&[]).to_values(), vec![0; 250]);
}
