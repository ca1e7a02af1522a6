use anonymizer::{
    merge_action, AnonymizerValues, ConfigAction, ConfigFileV1, ConfigFileV1_1, ConfigFileVersions,
    ConfigManager, CustomTag, PatientSex, TagAction,
};

fn plain_values() -> AnonymizerValues {
    AnonymizerValues {
        input: "in.dcm".to_string(),
        output: None,
        patient_name: TagAction::Keep,
        patient_sex: TagAction::Keep,
        patient_birth_day: TagAction::Keep,
        remove_tags: Vec::new(),
        dry_run: false,
    }
}

fn empty_v1() -> ConfigFileV1 {
    ConfigFileV1 {
        patient_name: None,
        patient_birth_day: None,
        patient_sex: None,
        remove_tags: None,
    }
}

#[test]
fn explicit_override_always_wins() {
    let over = TagAction::Change("Explicit".to_string());
    let config = TagAction::Change("FromConfig".to_string());
    assert_eq!(merge_action(over.clone(), config), over);

    let over = TagAction::<String>::Remove;
    let config = TagAction::Change("FromConfig".to_string());
    assert_eq!(merge_action(over, config), TagAction::Remove);

    let config = TagAction::Change("FromConfig".to_string());
    assert_eq!(merge_action(TagAction::Keep, config.clone()), config);
}

#[test]
fn override_wins_through_the_whole_merge() {
    let mut values = plain_values();
    values.patient_name = TagAction::Change("Explicit".to_string());
    let cfg = ConfigFileVersions::V1_0(ConfigFileV1 {
        patient_name: Some("FromConfig".to_string()),
        ..empty_v1()
    });
    values.merge_config(cfg);
    assert_eq!(values.patient_name, TagAction::Change("Explicit".to_string()));
}

#[test]
fn config_fills_fields_the_override_keeps() {
    let mut values = plain_values();
    let cfg = ConfigFileVersions::V1_0(ConfigFileV1 {
        patient_name: Some("Jane Doe".to_string()),
        ..empty_v1()
    });
    values.merge_config(cfg);
    assert_eq!(values.patient_name, TagAction::Change("Jane Doe".to_string()));
    assert_eq!(values.patient_sex, TagAction::Keep);
}

#[test]
fn v1_1_remove_stands_where_override_keeps() {
    let mut values = plain_values();
    let cfg = ConfigFileVersions::V1_1(ConfigFileV1_1 {
        patient_name: TagAction::Remove,
        patient_birth_day: TagAction::Keep,
        patient_sex: TagAction::Keep,
        remove_tags: Vec::new(),
    });
    values.merge_config(cfg);
    assert_eq!(values.patient_name, TagAction::Remove);
}

#[test]
fn removal_sets_are_additive_in_order() {
    let mut values = plain_values();
    values.remove_tags = vec![CustomTag::new(0x0010, 0x0020)];
    let cfg = ConfigFileVersions::V1_0(ConfigFileV1 {
        remove_tags: Some(vec![CustomTag::new(0x0010, 0x0010)]),
        ..empty_v1()
    });
    values.merge_config(cfg);
    assert_eq!(
        values.remove_tags,
        vec![CustomTag::new(0x0010, 0x0020), CustomTag::new(0x0010, 0x0010)]
    );
}

#[test]
fn sex_override_resolves_to_change() {
    let mut values = plain_values();
    values.patient_sex = TagAction::Change(PatientSex::from_str("f").unwrap());
    values.merge_config(ConfigFileVersions::V1_0(empty_v1()));
    let meta = values.match_trait();
    assert_eq!(meta.patient_sex, TagAction::Change(PatientSex::F));
}

#[test]
fn builder_collects_and_defaults() {
    let mut builder = anonymizer::Anonymizer::meta_builder();
    builder.remove_tag(CustomTag::new(1, 2));
    builder.remove_tags(anonymizer::RemoveTagsInput::Vec(vec![
        CustomTag::new(3, 4),
        CustomTag::new(5, 6),
    ]));
    let meta = builder.build();
    assert_eq!(meta.patient_name, TagAction::Keep);
    assert_eq!(meta.patient_birth_date, TagAction::Keep);
    assert_eq!(meta.patient_sex, TagAction::Keep);
    assert_eq!(
        meta.remove_tags,
        vec![CustomTag::new(1, 2), CustomTag::new(3, 4), CustomTag::new(5, 6)]
    );
}

#[test]
fn fresh_run_has_an_empty_plan() {
    let any = anonymizer::Anonymizer::new();
    assert!(any.object().is_none());
    assert_eq!(any.meta.patient_name, TagAction::Keep);
    assert_eq!(any.meta.patient_birth_date, TagAction::Keep);
    assert_eq!(any.meta.patient_sex, TagAction::Keep);
    assert!(any.meta.remove_tags.is_empty());
}

#[test]
fn remove_tags_input_wraps_a_list() {
    let input = anonymizer::RemoveTagsInput::from(vec![CustomTag::new(7, 8)]);
    let anonymizer::RemoveTagsInput::Vec(tags) = input;
    assert_eq!(tags, vec![CustomTag::new(7, 8)]);
}

#[test]
fn config_manager_needs_exactly_one_action() {
    let m = ConfigManager::match_args(true, false, false, "p.yaml".to_string()).unwrap();
    assert_eq!(m.action, ConfigAction::Create);
    assert_eq!(m.input, "p.yaml");

    let m = ConfigManager::match_args(false, false, true, "p.yaml".to_string()).unwrap();
    assert_eq!(m.action, ConfigAction::Show);

    let err = ConfigManager::match_args(false, false, false, "p.yaml".to_string()).unwrap_err();
    assert_eq!(err, "Must specify on of the options! (create, modify or show)");
    assert!(ConfigManager::match_args(true, true, false, "p.yaml".to_string()).is_err());
}
