use fv_common::{
    SeamParamFlatId, SeamParamKpId, SeamParamOcId, SeamParamOpId, SeamParamSfId, SeamParamVpId,
    SeamParamXpId,
};

#[test]
fn test_seam_param_flat_id() {
    assert_eq!(SeamParamFlatId::from(0), SeamParamFlatId::XpExposureControl);
    assert_eq!(
        SeamParamFlatId::from(1),
        SeamParamFlatId::XpExposureFramerate
    );
    assert_eq!(SeamParamFlatId::from(256), SeamParamFlatId::Invalid);
}

#[test]
fn flat_id_numbers_and_names_agree() {
    assert_eq!(SeamParamFlatId::from(30), SeamParamFlatId::KpAngle1);
    assert_eq!(SeamParamFlatId::from(60), SeamParamFlatId::OpDetectMethod);
    assert_eq!(SeamParamFlatId::from(120), SeamParamFlatId::VpAngleMin);
    assert_eq!(SeamParamFlatId::from(168), SeamParamFlatId::VpL1A);
    assert_eq!(SeamParamFlatId::from(180), SeamParamFlatId::OcFeaturePoint);
    assert_eq!(SeamParamFlatId::from(240), SeamParamFlatId::SfJointType);
    assert_eq!(SeamParamFlatId::from(249), SeamParamFlatId::SfVersion);
    assert_eq!(SeamParamFlatId::SfVersion.index(), 249);
    assert_eq!(SeamParamFlatId::VpL1A.index(), 168);
    assert_eq!(SeamParamFlatId::Invalid.index(), 0xffff);
}

#[test]
fn flat_id_round_trips_over_the_whole_space() {
    for i in 0..250usize {
        let id = SeamParamFlatId::from(i);
        assert!(id.is_valid());
        assert_eq!(id.index(), i);
        assert_eq!(SeamParamFlatId::from(i as i32), id);
    }
}

#[test]
fn flat_id_outside_the_space_is_invalid() {
    assert_eq!(SeamParamFlatId::from(250), SeamParamFlatId::Invalid);
    assert_eq!(SeamParamFlatId::from(-1), SeamParamFlatId::Invalid);
    assert_eq!(SeamParamFlatId::from(i32::MIN), SeamParamFlatId::Invalid);
    assert_eq!(SeamParamFlatId::from(usize::MAX), SeamParamFlatId::Invalid);
    assert!(!SeamParamFlatId::Invalid.is_valid());
}

#[test]
fn partition_ids_end_where_the_partitions_end() {
    assert_eq!(SeamParamXpId::from(29), SeamParamXpId::Xp29);
    assert_eq!(SeamParamXpId::from(30), SeamParamXpId::Invalid);
    assert_eq!(SeamParamKpId::from(29), SeamParamKpId::Kp29);
    assert_eq!(SeamParamKpId::from(30), SeamParamKpId::Invalid);
    assert_eq!(SeamParamOpId::from(59), SeamParamOpId::Op59);
    assert_eq!(SeamParamOpId::from(60), SeamParamOpId::Invalid);
    assert_eq!(SeamParamVpId::from(48), SeamParamVpId::L1A);
    assert_eq!(SeamParamVpId::from(59), SeamParamVpId::L4Length);
    assert_eq!(SeamParamVpId::from(60), SeamParamVpId::Invalid);
    assert_eq!(SeamParamOcId::from(59), SeamParamOcId::Oc59);
    assert_eq!(SeamParamOcId::from(60), SeamParamOcId::Invalid);
    assert_eq!(SeamParamSfId::from(9), SeamParamSfId::Version);
    assert_eq!(SeamParamSfId::from(10), SeamParamSfId::Invalid);
    assert_eq!(SeamParamSfId::from(-1), SeamParamSfId::Invalid);
}

#[test]
fn partition_ids_are_valid_inside_only() {
    assert!(SeamParamXpId::RoiH.is_valid());
    assert!(!SeamParamXpId::Invalid.is_valid());
    assert!(SeamParamKpId::Gap2.is_valid());
    assert!(!SeamParamKpId::Invalid.is_valid());
    assert!(SeamParamOpId::Op30.is_valid());
    assert!(!SeamParamOpId::Invalid.is_valid());
    assert!(SeamParamVpId::Vp47.is_valid());
    assert!(!SeamParamVpId::Invalid.is_valid());
    assert!(SeamParamOcId::TrackingArea.is_valid());
    assert!(!SeamParamOcId::Invalid.is_valid());
    assert!(SeamParamSfId::OcEn2.is_valid());
    assert!(!SeamParamSfId::Invalid.is_valid());
    assert_eq!(SeamParamSfId::OcEn2.index(), 8);
    assert!(SeamParamFlatId::XpRoiX < SeamParamFlatId::Invalid);
}
