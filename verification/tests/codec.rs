use fv_common::{
    JsonError, SeamParamFlatId, SeamParamValue, SeamParamsV0, SeamProfile, SeamProfileMeta,
    SEAM_PROFILE_SCHEMA,
};

#[test]
fn test_seam_params_v0() {
    let s = r#"
        {
            "values": [1,2,3,-1025638400,54,5,7,8,9]
        }
        "#;
    let _v0: SeamParamsV0 = SeamParamsV0::from_json_str(s).unwrap();
}

#[test]
fn test_seam_param_value_de() {
    let parsed: serde_json::Value = serde_json::from_str(r#"[1,2,3,4]"#).unwrap();
    let r: Result<Vec<SeamParamValue>, JsonError> = parsed
        .as_array()
        .unwrap()
        .iter()
        .map(SeamParamValue::from_json_value)
        .collect();
    assert!(r.is_ok());
    assert_eq!(r.unwrap(), vec![1.into(), 2.into(), 3.into(), 4.into()]);
    let v: Vec<SeamParamValue> = vec![123.into(), 456.into(), 789.into(), 123456789.into()];
    let tree = serde_json::Value::Array(v.iter().map(|x| x.to_json_value()).collect());
    let s = serde_json::to_string(&tree);
    assert!(s.is_ok());
    assert_eq!(&s.unwrap(), "[123,456,789,123456789]");
}

#[test]
fn a_short_list_leaves_the_rest_of_the_table_zero() {
    let t = SeamParamsV0::from_json_str(r#"{"values": [1,2,3,-1025638400,54,5,7,8,9]}"#).unwrap();
    let v = t.to_values();
    assert_eq!(&v[..9], &[1, 2, 3, -1025638400, 54, 5, 7, 8, 9]);
    assert!(v[9..].iter().all(|x| *x == 0));
    assert_eq!(f32::from_bits(t.value_f32(SeamParamFlatId::XpExposureTime)), -111.0);
}

#[test]
fn a_table_survives_the_round_through_json_text() {
    let values: Vec<i32> = (0..250).map(|i| i * 65_537 - 8_000_000).collect();
    let t = SeamParamsV0::from_values(&values);
    let text = t.to_json_string().unwrap();
    assert!(text.starts_with(r#"{"values":[-8000000,"#));
    let back = SeamParamsV0::from_json_str(&text).unwrap();
    assert_eq!(back.to_values(), values);
    let extremes = SeamParamsV0::from_values(&[i32::MIN, i32::MAX, -1, 0]);
    let back = SeamParamsV0::from_json_str(&extremes.to_json_string().unwrap()).unwrap();
    assert_eq!(back.to_values(), extremes.to_values());
}

#[test]
fn a_long_list_is_cut_at_the_end_of_the_table() {
    let long: Vec<String> = (0..260).map(|i| i.to_string()).collect();
    let text = format!(r#"{{"values":[{}]}}"#, long.join(","));
    let t = SeamParamsV0::from_json_str(&text).unwrap();
    assert_eq!(t.value_i32(SeamParamFlatId::SfVersion), 249);
    assert_eq!(t.to_values().len(), 250);
}

#[test]
fn an_empty_table_object_is_the_zero_table() {
    let t = SeamParamsV0::from_json_str("{}").unwrap();
    assert_eq!(t.to_values(), vec![0; 250]);
}

#[test]
fn an_unknown_member_of_a_table_is_refused() {
    assert!(matches!(
        SeamParamsV0::from_json_str(r#"{"values":[1],"extra":2}"#),
        Err(JsonError::Schema)
    ));
    assert!(matches!(
        SeamParamsV0::from_json_str(r#"{"parts":[1]}"#),
        Err(JsonError::Schema)
    ));
    assert!(matches!(
        SeamParamsV0::from_json_str(r#"{"value":[1]}"#),
        Err(JsonError::Schema)
    ));
}

#[test]
fn a_table_of_the_wrong_shape_is_refused() {
    for text in [
        r#"[1,2,3]"#,
        r#"{"values":"abc"}"#,
        r#"{"values":[1,"x"]}"#,
        r#"{"values":[1.5]}"#,
        r#"{"values":[2147483648]}"#,
        r#"{"values":[-2147483649]}"#,
        r#"{"values":null}"#,
        r#"7"#,
    ] {
        assert!(
            matches!(SeamParamsV0::from_json_str(text), Err(JsonError::Schema)),
            "{}",
            text
        );
    }
}

#[test]
fn text_that_is_no_json_is_told_apart_from_a_wrong_shape() {
    assert!(matches!(
        SeamParamsV0::from_json_str(r#"{"values":[1,2"#),
        Err(JsonError::Text(_))
    ));
    assert!(matches!(SeamProfile::from_json_str(""), Err(JsonError::Text(_))));
    assert!(matches!(
        SeamProfile::from_json_str("{} trailing"),
        Err(JsonError::Text(_))
    ));
    assert!(matches!(SeamProfile::from_json_str("{}"), Err(JsonError::Schema)));
}

const PROFILE: &str = r#"{
    "schema": "https://full-v.com/schemas/seam-profile.json",
    "enabled": true,
    "id": 5,
    "meta": {"name": "Fillet", "jointType": 258, "jointTypeMajor": 1, "jointTypeMinor": 2, "version": 3},
    "v0": {"values": [10, 20, 30]},
    "comment": "members that are not known are passed over"
}"#;

#[test]
fn a_profile_is_read_member_by_member() {
    let p = SeamProfile::from_json_str(PROFILE).unwrap();
    assert_eq!(p.schema(), SEAM_PROFILE_SCHEMA);
    assert!(p.is_enabled());
    assert_eq!(p.id(), 5);
    assert_eq!(p.name(), "Fillet");
    assert_eq!(p.meta().joint_type, 258);
    assert_eq!(p.meta().joint_type_major, 1);
    assert_eq!(p.meta().joint_type_minor, 2);
    assert_eq!(p.meta().version, 3);
    assert_eq!(p.v0().value_i32(SeamParamFlatId::XpExposureFramerate), 20);
    assert_eq!(p.v0().value_i32(SeamParamFlatId::XpExposureTime), 0);
    assert_eq!(p.commits(), 0);
}

#[test]
fn a_profile_without_schema_has_the_empty_schema() {
    let text = r#"{"enabled":false,"id":-4,
        "meta":{"name":"","jointType":0,"jointTypeMajor":0,"jointTypeMinor":0,"version":0},
        "v0":{}}"#;
    let p = SeamProfile::from_json_str(text).unwrap();
    assert_eq!(p.schema(), "");
    assert_eq!(p.id(), -4);
    assert!(!p.is_enabled());
}

#[test]
fn a_profile_that_lacks_a_member_is_refused() {
    for text in [
        r#"{"id":1,"meta":{"name":"a","jointType":0,"jointTypeMajor":0,"jointTypeMinor":0,"version":0},"v0":{}}"#,
        r#"{"enabled":true,"meta":{"name":"a","jointType":0,"jointTypeMajor":0,"jointTypeMinor":0,"version":0},"v0":{}}"#,
        r#"{"enabled":true,"id":1,"v0":{}}"#,
        r#"{"enabled":true,"id":1,"meta":{"name":"a","jointType":0,"jointTypeMajor":0,"jointTypeMinor":0,"version":0}}"#,
        r#"{"enabled":true,"id":1,"meta":{"jointType":0,"jointTypeMajor":0,"jointTypeMinor":0,"version":0},"v0":{}}"#,
        r#"{"enabled":true,"id":1,"meta":{"name":"a","jointType":0,"jointTypeMajor":0,"jointTypeMinor":0},"v0":{}}"#,
        r#"{"enabled":1,"id":1,"meta":{"name":"a","jointType":0,"jointTypeMajor":0,"jointTypeMinor":0,"version":0},"v0":{}}"#,
        r#"{"enabled":true,"id":"1","meta":{"name":"a","jointType":0,"jointTypeMajor":0,"jointTypeMinor":0,"version":0},"v0":{}}"#,
        r#"{"schema":5,"enabled":true,"id":1,"meta":{"name":"a","jointType":0,"jointTypeMajor":0,"jointTypeMinor":0,"version":0},"v0":{}}"#,
        r#"{"enabled":true,"id":1,"meta":{"name":"a","jointType":0,"jointTypeMajor":0,"jointTypeMinor":0,"version":0},"v0":{"other":[]}}"#,
    ] {
        assert!(
            matches!(SeamProfile::from_json_str(text), Err(JsonError::Schema)),
            "{}",
            text
        );
    }
}

#[test]
fn a_profile_survives_the_round_through_json_text() {
    let mut p = SeamProfile::new(true, 17);
    p.set_name("Lap \"A\" \u{00e9}");
    p.set_v0_value_i32(SeamParamFlatId::SfJointType, 0x0305);
    p.set_v0_value_i32(SeamParamFlatId::OcOffsetZ, -42);
    let text = p.to_json_string().unwrap();
    let q = SeamProfile::from_json_str(&text).unwrap();
    assert_eq!(q.schema(), SEAM_PROFILE_SCHEMA);
    assert_eq!(q.id(), 17);
    assert!(q.is_enabled());
    assert_eq!(q.name(), "Lap \"A\" \u{00e9}");
    assert_eq!(q.meta().joint_type, 0x0305);
    assert_eq!(q.meta().joint_type_major, 3);
    assert_eq!(q.meta().joint_type_minor, 5);
    assert_eq!(q.v0().to_values(), p.v0().to_values());
    assert_eq!(q.commits(), 0);
    assert_eq!(p.commits(), 3);
}

#[test]
fn the_json_form_of_a_profile_has_its_five_members() {
    let p = SeamProfile::new(false, 3);
    let tree = p.to_json_value();
    let members = tree.as_object().unwrap();
    assert_eq!(members.len(), 5);
    assert_eq!(tree["schema"], serde_json::Value::from(SEAM_PROFILE_SCHEMA));
    assert_eq!(tree["enabled"], serde_json::Value::Bool(false));
    assert_eq!(tree["id"], serde_json::Value::from(3));
    assert_eq!(tree["meta"].as_object().unwrap().len(), 5);
    assert_eq!(tree["meta"]["name"], serde_json::Value::from(""));
    assert_eq!(tree["meta"]["jointTypeMajor"], serde_json::Value::from(0));
    assert_eq!(tree["v0"].as_object().unwrap().len(), 1);
    assert_eq!(tree["v0"]["values"].as_array().unwrap().len(), 250);
}

#[test]
fn metadata_has_a_json_form_of_its_own() {
    let mut m = SeamProfileMeta::new();
    m.set_joint_type(0x0102);
    m.version = 9;
    let tree = m.to_json_value();
    assert_eq!(tree["name"], serde_json::Value::from("Profile"));
    assert_eq!(tree["jointType"], serde_json::Value::from(258));
    assert_eq!(tree["jointTypeMajor"], serde_json::Value::from(1));
    assert_eq!(tree["jointTypeMinor"], serde_json::Value::from(2));
    assert_eq!(tree["version"], serde_json::Value::from(9));
    let back = SeamProfileMeta::from_json_value(&tree).unwrap();
    assert_eq!(back.name(), "Profile");
    assert_eq!(back.joint_type(), 258);
    assert_eq!(back.version, 9);
    assert!(matches!(
        SeamProfileMeta::from_json_value(&serde_json::Value::Null),
        Err(JsonError::Schema)
    ));
}

#[test]
fn a_register_is_an_integer_of_32_bits_in_json() {
    assert_eq!(
        SeamParamValue::from_json_value(&serde_json::Value::from(-7)).unwrap(),
        SeamParamValue::from_i32(-7)
    );
    assert!(SeamParamValue::from_json_value(&serde_json::Value::from(1i64 << 31)).is_err());
    assert!(SeamParamValue::from_json_value(&serde_json::Value::from("1")).is_err());
    assert_eq!(
        SeamParamValue::from_i32(i32::MIN).to_json_value(),
        serde_json::Value::from(i32::MIN)
    );
}
