use fv_common::{
    JsonError, SeamParamFlatId, SeamProfile, SeamProfileFFI, SeamProfileManager, SeamProfilesInfo,
    SeamProfilesMetaOnly, SEAM_PROFILES_META_ONLY_SCHEMA, SEAM_PROFILES_SCHEMA,
};

fn manager() -> SeamProfileManager {
    SeamProfileManager::new("/var/backup", "/var/profiles")
}

#[test]
fn test_seam_profile_manager() {
    let mut mgr = SeamProfileManager::default();
    let mut seeded = 0;
    for i in 0..256 {
        if mgr.install_loaded(i, None) {
            seeded += 1;
        }
    }
    assert_eq!(seeded, 256);
    assert_eq!(mgr.backup_dir(), "/var/lib/rklaser/backup");
    assert_eq!(mgr.config_dir(), "/var/lib/rklaser/profiles");
    for i in 0..256 {
        let text = mgr.get_profile(i).to_json_string().unwrap();
        let back = SeamProfile::from_json_str(&text).unwrap();
        assert!(!mgr.install_loaded(i, Some(&back)));
    }
    assert_eq!(mgr.commits(), 0);
    assert!(mgr.flush().is_empty());
}

#[test]
fn a_new_manager_owns_256_disabled_profiles() {
    let mgr = manager();
    assert_eq!(mgr.current_profile_id(), 0);
    assert!(!mgr.is_profile_switched());
    assert!(!mgr.is_profile_updated());
    assert!(!mgr.is_profiles_changed());
    assert_eq!(mgr.commits(), 0);
    assert_eq!(mgr.flush_times(), 0);
    for i in 0..256usize {
        let p = mgr.get_profile(i);
        assert_eq!(p.id(), i as i32);
        assert!(!p.is_enabled());
        assert_eq!(p.commits(), 0);
    }
    assert_eq!(
        *mgr.current_profile_ffi(),
        SeamProfileFFI { enabled: 0, id: 0, meta: 0, v0: 0 }
    );
    assert_eq!(SeamProfileFFI::default().v0, usize::MAX);
}

#[test]
fn switching_flags_only_a_real_switch() {
    let mut mgr = manager();
    mgr.set_current_profile_id(0);
    assert!(!mgr.is_profile_switched());
    assert_eq!(mgr.current_profile_id(), 0);
    mgr.set_current_profile_id(7);
    assert!(mgr.is_profile_switched());
    assert_eq!(mgr.current_profile_id(), 7);
    assert_eq!(mgr.current_profile().id(), 7);
    assert_eq!(mgr.current_profile_ffi().id, 7);
    mgr.set_profile_switched(false);
    mgr.set_current_profile_id(7);
    assert!(!mgr.is_profile_switched());
    mgr.set_current_profile_id(256);
    assert!(!mgr.is_profile_switched());
    assert_eq!(mgr.current_profile_id(), 7);
    mgr.set_current_profile_id(usize::MAX);
    assert_eq!(mgr.current_profile_id(), 7);
    assert_eq!(mgr.commits(), 0);
}

#[test]
fn a_switch_from_native_code_is_range_checked() {
    let mut mgr = manager();
    assert_eq!(mgr.switch_profile(256), -1);
    assert_eq!(mgr.switch_profile(-1), -1);
    assert_eq!(mgr.current_profile_id(), 0);
    assert!(!mgr.is_profile_switched());
    assert_eq!(mgr.switch_profile(255), 0);
    assert_eq!(mgr.current_profile_id(), 255);
    assert!(mgr.is_profile_switched());
    mgr.set_profile_switched(false);
    assert_eq!(mgr.switch_profile(255), 0);
    assert!(!mgr.is_profile_switched());
}

#[test]
fn enabling_reaches_profile_and_mirror() {
    let mut mgr = manager();
    mgr.enable_profile(3);
    assert!(mgr.get_profile(3).is_enabled());
    assert_eq!(mgr.get_profile(3).commits(), 1);
    assert!(!mgr.get_profile(4).is_enabled());
    assert_eq!(mgr.commits(), 1);
    mgr.set_current_profile_id(3);
    assert_eq!(mgr.current_profile_ffi().enabled, 1);
    mgr.disable_profile(3);
    assert!(!mgr.get_profile(3).is_enabled());
    assert_eq!(mgr.current_profile_ffi().enabled, 0);
    assert_eq!(mgr.commits(), 2);
    mgr.enable_profile(256);
    mgr.disable_profile(1000);
    assert_eq!(mgr.commits(), 2);
}

#[test]
fn enabling_all_counts_one_change_of_the_manager() {
    let mut mgr = manager();
    mgr.enable_all_profiles();
    assert_eq!(mgr.commits(), 1);
    for i in 0..256 {
        assert!(mgr.get_profile(i).is_enabled());
        assert_eq!(mgr.get_profile(i).commits(), 1);
        mgr.set_current_profile_id(i);
        assert_eq!(mgr.current_profile_ffi().enabled, 1);
        assert_eq!(mgr.current_profile_ffi().id, i as i32);
    }
    mgr.disable_all_profiles();
    assert_eq!(mgr.commits(), 2);
    for i in 0..256 {
        assert!(!mgr.get_profile(i).is_enabled());
        assert_eq!(mgr.get_profile(i).commits(), 2);
    }
}

#[test]
fn renaming_to_the_same_name_changes_nothing() {
    let mut mgr = manager();
    mgr.set_current_profile_name("");
    assert_eq!(mgr.commits(), 0);
    mgr.set_current_profile_name("Groove");
    assert_eq!(mgr.current_profile_name(), "Groove");
    assert_eq!(mgr.commits(), 1);
    assert_eq!(mgr.current_profile().commits(), 1);
    mgr.set_current_profile_name("Groove");
    assert_eq!(mgr.commits(), 1);
}

#[test]
fn writes_to_the_active_table_are_counted_twice_over() {
    let mut mgr = manager();
    mgr.set_current_profile_id(9);
    mgr.set_cur_v0_value_i32(SeamParamFlatId::OcBasePosY, 55);
    mgr.set_cur_v0_value_f32(SeamParamFlatId::OcBasePosZ, 1.0f32.to_bits());
    assert_eq!(mgr.cur_v0_value_i32(SeamParamFlatId::OcBasePosY), 55);
    assert_eq!(f32::from_bits(mgr.cur_v0_value_f32(SeamParamFlatId::OcBasePosZ)), 1.0);
    assert_eq!(mgr.cur_v0().value_i32(SeamParamFlatId::OcBasePosY), 55);
    assert_eq!(mgr.commits(), 2);
    assert_eq!(mgr.get_profile(9).commits(), 2);
    mgr.set_cur_v0_value_i32(SeamParamFlatId::Invalid, 1);
    mgr.set_cur_v0_value_f32(SeamParamFlatId::Invalid, 1);
    assert_eq!(mgr.commits(), 2);
    assert_eq!(mgr.get_profile(9).commits(), 2);
    assert_eq!(mgr.cur_v0_value_i32(SeamParamFlatId::Invalid), 0);
    assert_eq!(mgr.cur_v0_value_f32(SeamParamFlatId::Invalid), 0);
    mgr.cur_v0_mut().set_value_i32(SeamParamFlatId::XpScanMode, 2);
    assert_eq!(mgr.get_profile(9).v0().value_i32(SeamParamFlatId::XpScanMode), 2);
    assert_eq!(mgr.commits(), 2);
    mgr.current_profile_mut().set_enabled(true);
    assert!(mgr.get_profile(9).is_enabled());
    mgr.get_profile_mut(10).set_name("ten");
    assert_eq!(mgr.get_profile(10).name(), "ten");
    mgr.current_profile_ffi_mut().enabled = 1;
    assert_eq!(mgr.current_profile_ffi().enabled, 1);
}

#[test]
fn counters_can_be_cleared() {
    let mut mgr = manager();
    mgr.commit();
    mgr.commit();
    assert_eq!(mgr.commits(), 2);
    mgr.clear_commits();
    assert_eq!(mgr.commits(), 0);
    mgr.commit();
    mgr.flush();
    assert_eq!(mgr.flush_times(), 1);
    mgr.clear_flush_times();
    assert_eq!(mgr.flush_times(), 0);
    mgr.set_profile_updated(true);
    mgr.set_profiles_changed(true);
    assert!(mgr.is_profile_updated());
    assert!(mgr.is_profiles_changed());
}

#[test]
fn the_times_of_change_move_with_the_changes() {
    let mut mgr = SeamProfileManager::new_at("/b", "/c", 1);
    assert_eq!(mgr.all_modified(), 1);
    assert_eq!(mgr.profiles_modified(), 1);
    mgr.commit();
    assert!(mgr.all_modified() > 1);
    assert_eq!(mgr.profiles_modified(), 1);
    mgr.enable_profile(0);
    assert!(mgr.profiles_modified() > 1);
}

#[test]
fn a_change_at_a_given_time_leaves_that_time() {
    let mut mgr = SeamProfileManager::new_at("/b", "/c", 10);
    mgr.commit_at(20);
    assert_eq!((mgr.all_modified(), mgr.profiles_modified(), mgr.commits()), (20, 10, 1));
    mgr.touch_profiles_at(30);
    assert_eq!((mgr.all_modified(), mgr.profiles_modified(), mgr.commits()), (20, 30, 1));
    mgr.enable_profile_at(3, 40);
    assert_eq!((mgr.all_modified(), mgr.profiles_modified(), mgr.commits()), (40, 40, 2));
    assert!(mgr.get_profile(3).is_enabled());
    mgr.disable_profile_at(3, 50);
    assert_eq!((mgr.all_modified(), mgr.profiles_modified(), mgr.commits()), (50, 50, 3));
    assert!(!mgr.get_profile(3).is_enabled());
    mgr.enable_profile_at(256, 60);
    assert_eq!((mgr.all_modified(), mgr.profiles_modified(), mgr.commits()), (50, 50, 3));
    mgr.enable_all_profiles_at(70);
    assert_eq!((mgr.all_modified(), mgr.profiles_modified(), mgr.commits()), (70, 70, 4));
    mgr.disable_all_profiles_at(80);
    assert_eq!((mgr.all_modified(), mgr.profiles_modified(), mgr.commits()), (80, 80, 5));
    mgr.set_cur_v0_value_i32_at(SeamParamFlatId::KpWidth1, 7, 90);
    assert_eq!((mgr.all_modified(), mgr.profiles_modified(), mgr.commits()), (90, 80, 6));
    mgr.set_cur_v0_value_f32_at(SeamParamFlatId::KpWidth1, 0x3f80_0000, 95);
    assert_eq!((mgr.all_modified(), mgr.profiles_modified(), mgr.commits()), (95, 80, 7));
    mgr.set_cur_v0_value_i32_at(SeamParamFlatId::Invalid, 7, 99);
    assert_eq!((mgr.all_modified(), mgr.profiles_modified(), mgr.commits()), (95, 80, 7));
}

#[test]
fn a_rename_at_a_given_time_leaves_that_time_unless_the_name_stays() {
    let mut mgr = SeamProfileManager::new_at("/b", "/c", 10);
    mgr.set_current_profile_name_at("butt", 20);
    assert_eq!((mgr.all_modified(), mgr.profiles_modified(), mgr.commits()), (20, 20, 1));
    assert_eq!(mgr.current_profile_name(), "butt");
    mgr.set_current_profile_name_at("butt", 30);
    assert_eq!((mgr.all_modified(), mgr.profiles_modified(), mgr.commits()), (20, 20, 1));
}

#[test]
fn a_merge_at_a_given_time_leaves_that_time() {
    let mut mgr = SeamProfileManager::new_at("/b", "/c", 10);
    let mut incoming = SeamProfile::new(true, 9);
    incoming.set_name("lap");
    mgr.merge_profile_at(&incoming, 20);
    assert_eq!((mgr.all_modified(), mgr.profiles_modified(), mgr.commits()), (20, 20, 1));
    assert_eq!(mgr.get_profile(9).name(), "lap");
    assert_eq!(mgr.get_profile(9).id(), 9);
    let stray = SeamProfile::new(true, 256);
    mgr.merge_profile_at(&stray, 30);
    assert_eq!((mgr.all_modified(), mgr.profiles_modified(), mgr.commits()), (20, 20, 1));
}

#[test]
fn flush_writes_only_what_has_changed() {
    let mut mgr = manager();
    assert!(mgr.flush().is_empty());
    assert_eq!(mgr.flush_times(), 0);
    mgr.set_current_profile_id(5);
    mgr.set_cur_v0_value_i32(SeamParamFlatId::KpWidth1, 3);
    assert_eq!(mgr.flush(), vec![5]);
    assert_eq!(mgr.flush_times(), 1);
    assert_eq!(mgr.commits(), 0);
    assert_eq!(mgr.get_profile(5).commits(), 0);
    assert!(mgr.flush().is_empty());
    assert_eq!(mgr.flush_times(), 1);
    mgr.enable_profile(200);
    mgr.enable_profile(2);
    mgr.enable_profile(200);
    assert_eq!(mgr.flush(), vec![2, 200]);
    assert_eq!(mgr.flush_times(), 2);
}

#[test]
fn a_change_behind_the_managers_back_waits_for_the_next_flush() {
    let mut mgr = manager();
    mgr.get_profile_mut(8).set_enabled(true);
    assert!(mgr.flush().is_empty());
    assert_eq!(mgr.get_profile(8).commits(), 1);
    mgr.commit();
    assert_eq!(mgr.flush(), vec![8]);
}

#[test]
fn files_are_named_after_the_profile_and_the_slot() {
    let mgr = manager();
    assert_eq!(mgr.profile_path(0), "/var/profiles/seam-profile-0.json");
    assert_eq!(mgr.profile_path(5), "/var/profiles/seam-profile-5.json");
    assert_eq!(mgr.profile_path(255), "/var/profiles/seam-profile-255.json");
    assert_eq!(mgr.backup_path(0), "/var/backup/profiles-0.tar.gz");
    assert_eq!(mgr.backup_path(3), "/var/backup/profiles-3.tar.gz");
    assert_eq!(mgr.backup_path(10), "/var/backup/profiles-10.tar.gz");
}

fn profile_json(id: i32, enabled: bool, name: &str, first: i32) -> String {
    format!(
        r#"{{"schema":"s","enabled":{},"id":{},"meta":{{"name":"{}","jointType":0,"jointTypeMajor":0,"jointTypeMinor":0,"version":4}},"v0":{{"values":[{},2,3]}}}}"#,
        enabled, id, name, first
    )
}

#[test]
fn a_profile_payload_is_merged_into_the_profile_it_names() {
    let mut mgr = manager();
    let mut values = vec![0; 250];
    values[240] = 0x0203;
    values[17] = -5;
    let list: Vec<String> = values.iter().map(|v| v.to_string()).collect();
    let text = format!(
        r#"{{"enabled":true,"id":42,"meta":{{"name":"Tee","jointType":1,"jointTypeMajor":9,"jointTypeMinor":9,"version":4}},"v0":{{"values":[{}]}}}}"#,
        list.join(",")
    );
    mgr.load_profile_from_json_str(&text).unwrap();
    let p = mgr.get_profile(42);
    assert!(p.is_enabled());
    assert_eq!(p.id(), 42);
    assert_eq!(p.name(), "Tee");
    assert_eq!(p.meta().joint_type(), 0x0203);
    assert_eq!(p.meta().joint_type_major, 2);
    assert_eq!(p.meta().joint_type_minor, 3);
    assert_eq!(p.meta().version, 0);
    assert_eq!(p.v0().to_values(), values);
    assert_eq!(p.commits(), 2);
    assert_eq!(mgr.commits(), 1);
    mgr.set_current_profile_id(42);
    assert_eq!(mgr.current_profile_ffi().enabled, 0);
    assert!(!mgr.get_profile(41).is_enabled());
}

#[test]
fn a_payload_for_no_profile_is_passed_over() {
    let mut mgr = manager();
    assert!(mgr.load_profile_from_json_str(&profile_json(256, true, "x", 1)).is_ok());
    assert!(mgr.load_profile_from_json_str(&profile_json(-1, true, "x", 1)).is_ok());
    assert!(mgr.load_profile_from_json_str(&profile_json(i32::MAX, true, "x", 1)).is_ok());
    assert_eq!(mgr.commits(), 0);
    for i in 0..256 {
        assert!(!mgr.get_profile(i).is_enabled());
        assert_eq!(mgr.get_profile(i).commits(), 0);
    }
    assert!(mgr.load_profile_from_json_str(&profile_json(255, true, "last", 1)).is_ok());
    assert_eq!(mgr.get_profile(255).name(), "last");
    assert!(mgr.load_profile_from_json_str(&profile_json(0, true, "first", 1)).is_ok());
    assert_eq!(mgr.get_profile(0).name(), "first");
    assert_eq!(mgr.commits(), 2);
}

#[test]
fn a_payload_that_is_no_profile_changes_nothing() {
    let mut mgr = manager();
    assert!(matches!(
        mgr.load_profile_from_json_str("{"),
        Err(JsonError::Text(_))
    ));
    assert!(matches!(
        mgr.load_profile_from_json_str(r#"{"id":3}"#),
        Err(JsonError::Schema)
    ));
    assert!(matches!(
        mgr.load_profiles_from_json_str(r#"{"profiles":[]}"#),
        Err(JsonError::Schema)
    ));
    assert!(matches!(
        mgr.load_profiles_from_json_str(r#"{"schema":"s"}"#),
        Err(JsonError::Schema)
    ));
    assert!(matches!(
        mgr.load_profiles_from_json_str("[]"),
        Err(JsonError::Schema)
    ));
    assert!(matches!(
        mgr.load_profiles_from_json_str("nope"),
        Err(JsonError::Text(_))
    ));
    let bad = format!(
        r#"{{"schema":"s","profiles":[{},{{"id":1}}]}}"#,
        profile_json(3, true, "three", 1)
    );
    assert!(matches!(
        mgr.load_profiles_from_json_str(&bad),
        Err(JsonError::Schema)
    ));
    assert_eq!(mgr.commits(), 0);
    assert!(!mgr.get_profile(3).is_enabled());
}

#[test]
fn a_list_payload_is_merged_profile_by_profile() {
    let mut mgr = manager();
    let text = format!(
        r#"{{"schema":"s","profiles":[{},{},{},{}]}}"#,
        profile_json(1, true, "one", 11),
        profile_json(300, true, "none", 12),
        profile_json(2, false, "two", 13),
        profile_json(1, true, "one again", 14),
    );
    mgr.load_profiles_from_json_str(&text).unwrap();
    assert_eq!(mgr.get_profile(1).name(), "one again");
    assert_eq!(mgr.get_profile(1).v0().value_i32(SeamParamFlatId::XpExposureControl), 14);
    assert_eq!(mgr.get_profile(1).commits(), 4);
    assert_eq!(mgr.get_profile(2).name(), "two");
    assert!(!mgr.get_profile(2).is_enabled());
    assert_eq!(mgr.commits(), 3);
    mgr.load_profiles_from_json_str(r#"{"schema":"","profiles":[]}"#).unwrap();
    assert_eq!(mgr.commits(), 3);
}

#[test]
fn a_loaded_profile_is_the_new_baseline() {
    let mut mgr = manager();
    let loaded = SeamProfile::from_json_str(&profile_json(99, true, "disk", 8)).unwrap();
    assert!(!mgr.install_loaded(4, Some(&loaded)));
    assert_eq!(mgr.get_profile(4).name(), "disk");
    assert_eq!(mgr.get_profile(4).id(), 4);
    assert!(mgr.get_profile(4).is_enabled());
    assert_eq!(mgr.get_profile(4).commits(), 0);
    assert_eq!(mgr.commits(), 0);
    assert!(mgr.install_loaded(5, None));
    assert_eq!(mgr.get_profile(5).name(), "");
    assert!(mgr.flush().is_empty());
}

#[test]
fn a_dump_takes_the_enabled_profiles() {
    let mut mgr = manager();
    assert_eq!(mgr.select_profiles(None), Vec::<usize>::new());
    mgr.enable_profile(7);
    mgr.enable_profile(3);
    mgr.get_profile_mut(3).set_name("three");
    assert_eq!(mgr.select_profiles(None), vec![3, 7]);
    assert_eq!(mgr.select_profiles(Some(7)), vec![7]);
    assert_eq!(mgr.select_profiles(Some(4)), Vec::<usize>::new());
    assert_eq!(mgr.select_profiles(Some(-1)), Vec::<usize>::new());

    let tree: serde_json::Value = serde_json::from_str(&mgr.dump_profiles_string(None)).unwrap();
    assert_eq!(tree.as_object().unwrap().len(), 2);
    assert_eq!(tree["schema"], serde_json::Value::from(SEAM_PROFILES_SCHEMA));
    let list = tree["profiles"].as_array().unwrap();
    assert_eq!(list.len(), 2);
    assert_eq!(list[0]["id"], serde_json::Value::from(3));
    assert_eq!(list[0]["meta"]["name"], serde_json::Value::from("three"));
    assert_eq!(list[1]["id"], serde_json::Value::from(7));
    assert_eq!(list[1]["v0"]["values"].as_array().unwrap().len(), 250);

    let one = mgr.dump_profiles_value(Some(7));
    assert_eq!(one["profiles"].as_array().unwrap().len(), 1);
    let none = mgr.dump_profiles_value(Some(8));
    assert_eq!(none["profiles"].as_array().unwrap().len(), 0);
}

#[test]
fn the_full_dump_takes_all_256() {
    let mut mgr = manager();
    mgr.enable_profile(1);
    let text = mgr.to_json_string();
    let tree: serde_json::Value = serde_json::from_str(&text).unwrap();
    assert_eq!(tree["schema"], serde_json::Value::from(SEAM_PROFILES_SCHEMA));
    let list = tree["profiles"].as_array().unwrap();
    assert_eq!(list.len(), 256);
    assert_eq!(list[1]["enabled"], serde_json::Value::Bool(true));
    assert_eq!(list[255]["id"], serde_json::Value::from(255));
    assert_eq!(mgr.to_json_value(), tree);

    let mut other = manager();
    other.load_profiles_from_json_str(&text).unwrap();
    assert!(other.get_profile(1).is_enabled());
    assert!(!other.get_profile(2).is_enabled());
    assert_eq!(other.commits(), 256);
}

#[test]
fn the_light_dump_carries_only_metadata() {
    let mut mgr = manager();
    mgr.enable_profile(12);
    mgr.get_profile_mut(12).set_name("twelve");
    mgr.enable_profile(13);
    let list = mgr.dump_profiles_meta_only(None);
    assert_eq!(list.schema, SEAM_PROFILES_META_ONLY_SCHEMA);
    assert_eq!(list.profiles.len(), 2);
    assert_eq!(list.profiles[0].id, 12);
    assert!(list.profiles[0].enabled);
    assert_eq!(list.profiles[0].meta.name(), "twelve");
    assert_eq!(list.to_json_value(), {
        let text = list.to_json_string();
        serde_json::from_str::<serde_json::Value>(&text).unwrap()
    });

    let text = mgr.dump_profiles_meta_only_string(Some(12));
    let tree: serde_json::Value = serde_json::from_str(&text).unwrap();
    assert_eq!(tree["schema"], serde_json::Value::from(SEAM_PROFILES_META_ONLY_SCHEMA));
    let items = tree["profiles"].as_array().unwrap();
    assert_eq!(items.len(), 1);
    assert_eq!(items[0].as_object().unwrap().len(), 3);
    assert_eq!(items[0]["enabled"], serde_json::Value::Bool(true));
    assert_eq!(items[0]["id"], serde_json::Value::from(12));
    assert_eq!(items[0]["meta"]["name"], serde_json::Value::from("twelve"));
    assert_eq!(items[0]["meta"]["version"], serde_json::Value::from(0));
    assert!(items[0].get("v0").is_none());
}

#[test]
fn a_list_merged_at_a_given_time_leaves_that_time() {
    let mut mgr = SeamProfileManager::new_at("/b", "/c", 10);
    let mut list = SeamProfilesInfo::default();
    assert_eq!(list.schema, "");
    assert!(list.profiles.is_empty());
    mgr.merge_profiles_at(&list, 15);
    assert_eq!((mgr.all_modified(), mgr.profiles_modified(), mgr.commits()), (10, 10, 0));
    list.profiles.push(SeamProfile::new(true, 4));
    list.profiles.push(SeamProfile::new(true, -1));
    list.profiles.push(SeamProfile::new(true, 6));
    mgr.merge_profiles_at(&list, 20);
    assert_eq!((mgr.all_modified(), mgr.profiles_modified(), mgr.commits()), (20, 20, 2));
    assert!(mgr.get_profile(4).is_enabled());
    assert!(!mgr.get_profile(5).is_enabled());
    assert!(mgr.get_profile(6).is_enabled());
    assert_eq!(mgr.get_profile(4).commits(), 2);
}

#[test]
fn an_empty_reduced_list_has_no_schema_and_no_profiles() {
    let list = SeamProfilesMetaOnly::default();
    assert_eq!(list.schema, "");
    assert!(list.profiles.is_empty());
}

#[test]
fn each_profile_of_a_dump_has_its_five_members_and_its_250_registers() {
    let mut mgr = manager();
    mgr.enable_profile(2);
    mgr.enable_profile(7);
    mgr.set_current_profile_id(7);
    mgr.set_current_profile_name("fillet");
    mgr.set_cur_v0_value_i32(SeamParamFlatId::KpWidth1, 41);
    let doc: serde_json::Value = serde_json::from_str(&mgr.dump_profiles_string(None)).unwrap();
    let top = doc.as_object().unwrap();
    assert_eq!(top.keys().collect::<Vec<_>>(), vec!["profiles", "schema"]);
    let listed = doc["profiles"].as_array().unwrap();
    assert_eq!(listed.len(), 2);
    for (item, id) in listed.iter().zip([2i64, 7]) {
        let members = item.as_object().unwrap();
        assert_eq!(
            members.keys().collect::<Vec<_>>(),
            vec!["enabled", "id", "meta", "schema", "v0"]
        );
        assert_eq!(item["enabled"].as_bool(), Some(true));
        assert_eq!(item["id"].as_i64(), Some(id));
        assert_eq!(
            item["meta"].as_object().unwrap().keys().collect::<Vec<_>>(),
            vec!["jointType", "jointTypeMajor", "jointTypeMinor", "name", "version"]
        );
        assert_eq!(item["v0"].as_object().unwrap().keys().collect::<Vec<_>>(), vec!["values"]);
        let values = item["v0"]["values"].as_array().unwrap();
        assert_eq!(values.len(), 250);
        assert!(values.iter().all(|v| v.as_i64().is_some()));
    }
    assert_eq!(listed[1]["meta"]["name"].as_str(), Some("fillet"));
    let kp = SeamParamFlatId::KpWidth1.index();
    assert_eq!(listed[1]["v0"]["values"][kp].as_i64(), Some(41));
    assert_eq!(listed[0]["v0"]["values"][kp].as_i64(), Some(0));
}
