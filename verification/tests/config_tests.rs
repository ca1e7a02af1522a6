use anonymizer::{
    ConfigError, ConfigFileVersions, CustomDicomDateTime, CustomTag, DocEntry, DocValue, TagAction,
};

fn entry(key: &str, value: DocValue) -> DocEntry {
    DocEntry { key: key.to_string(), value }
}

fn doc(version: Option<DocValue>, config: Vec<DocEntry>) -> DocValue {
    let mut top = Vec::new();
    if let Some(v) = version {
        top.push(entry("version", v));
    }
    top.push(entry("config", DocValue::Mapping(config)));
    DocValue::Mapping(top)
}

fn str_node(s: &str) -> DocValue {
    DocValue::Str(s.to_string())
}

#[test]
fn v1_document_reads_plain_values() {
    let root = doc(
        None,
        vec![
            entry("patient_name", str_node("Jane Doe")),
            entry("patient_birth_day", str_node("2016-08-12")),
            entry("patient_sex", str_node("o")),
            entry("remove_tags", DocValue::List(vec![str_node("0x0010-0x0010")])),
        ],
    );
    match ConfigFileVersions::parse(&root).unwrap() {
        ConfigFileVersions::V1_0(cfg) => {
            assert_eq!(cfg.patient_name.as_deref(), Some("Jane Doe"));
            assert_eq!(
                cfg.patient_birth_day,
                Some(CustomDicomDateTime::new(2016, 8, 12, 0, 0, 0, 0))
            );
            assert_eq!(cfg.patient_sex, Some(anonymizer::PatientSex::O));
            assert_eq!(cfg.remove_tags, Some(vec![CustomTag::new(0x0010, 0x0010)]));
        }
        ConfigFileVersions::V1_1(_) => assert!(false),
    }
}

#[test]
fn missing_version_selects_schema_1_0() {
    let root = doc(None, vec![entry("patient_name", str_node("Jane Doe"))]);
    match ConfigFileVersions::parse(&root).unwrap() {
        ConfigFileVersions::V1_0(cfg) => {
            assert_eq!(cfg.patient_name.as_deref(), Some("Jane Doe"));
            assert_eq!(cfg.remove_tags, None);
        }
        ConfigFileVersions::V1_1(_) => assert!(false),
    }
}

#[test]
fn unknown_version_is_a_hard_error() {
    let root = doc(Some(str_node("9.9")), vec![]);
    match ConfigFileVersions::parse(&root) {
        Ok(_) => assert!(false),
        Err(ConfigError::UnsupportedVersion { version }) => assert_eq!(version, "9.9"),
        Err(_) => assert!(false),
    }
}

#[test]
fn v1_1_document_reads_tri_state_actions() {
    let root = doc(
        Some(str_node("1.1")),
        vec![
            entry("patient_name", DocValue::Null),
            entry("patient_sex", str_node("F")),
        ],
    );
    match ConfigFileVersions::parse(&root).unwrap() {
        ConfigFileVersions::V1_1(cfg) => {
            assert_eq!(cfg.patient_name, TagAction::Remove);
            assert_eq!(cfg.patient_birth_day, TagAction::Keep);
            assert_eq!(cfg.patient_sex, TagAction::Change(anonymizer::PatientSex::F));
            assert_eq!(cfg.remove_tags, Vec::<CustomTag>::new());
        }
        ConfigFileVersions::V1_0(_) => assert!(false),
    }
}

#[test]
fn wrong_shape_names_the_key() {
    let root = doc(
        None,
        vec![entry("patient_name", DocValue::List(vec![]))],
    );
    match ConfigFileVersions::parse(&root) {
        Err(ConfigError::Shape { key }) => assert_eq!(key, "patient_name"),
        _ => assert!(false),
    }

    let root = doc(None, vec![entry("remove_tags", str_node("0x0010-0x0010"))]);
    match ConfigFileVersions::parse(&root) {
        Err(ConfigError::Shape { key }) => assert_eq!(key, "remove_tags"),
        _ => assert!(false),
    }
}

#[test]
fn bad_value_names_the_key() {
    let root = doc(None, vec![entry("patient_birth_day", str_node("12.08.2016"))]);
    match ConfigFileVersions::parse(&root) {
        Err(ConfigError::Value { key, .. }) => assert_eq!(key, "patient_birth_day"),
        _ => assert!(false),
    }

    let root = doc(
        None,
        vec![entry("remove_tags", DocValue::List(vec![str_node("0x10-0x20-0x30")]))],
    );
    match ConfigFileVersions::parse(&root) {
        Err(ConfigError::Value { key, error }) => {
            assert_eq!(key, "remove_tags");
            assert_eq!(error.message(), "Must be in 0xGGGG-0xEEEE format: 0x10-0x20-0x30");
        }
        _ => assert!(false),
    }
}

#[test]
fn missing_config_object_is_an_error() {
    let root = DocValue::Mapping(vec![entry("version", str_node("1.0"))]);
    match ConfigFileVersions::parse(&root) {
        Err(ConfigError::Shape { key }) => assert_eq!(key, "config"),
        _ => assert!(false),
    }
}

#[test]
fn unrecognized_keys_are_ignored() {
    let root = doc(
        None,
        vec![
            entry("future_knob", DocValue::Other),
            entry("patient_name", str_node("Jane Doe")),
        ],
    );
    assert!(ConfigFileVersions::parse(&root).is_ok());
}

#[test]
fn doc_lookup_finds_only_map_keys() {
    let node = DocValue::Mapping(vec![entry("a", str_node("x")), entry("b", DocValue::Null)]);
    assert!(matches!(node.get("a"), Some(DocValue::Str(s)) if s == "x"));
    assert!(matches!(node.get("b"), Some(DocValue::Null)));
    assert!(node.get("c").is_none());
    assert!(str_node("x").get("a").is_none());
}

#[test]
fn version_marker_of_wrong_shape_is_an_error() {
    let root = doc(Some(DocValue::Other), vec![]);
    match ConfigFileVersions::parse(&root) {
        Err(ConfigError::Shape { key }) => assert_eq!(key, "version"),
        _ => assert!(false),
    }
}
