//! A library for planning and applying edits to the identifying fields of a
//! DICOM medical record: parsing field addresses, merging layered instruction
//! sources into one anonymization plan, and applying that plan to a record.

mod action;
mod anonymizer;
mod config;
mod date;
mod errors;
mod manager;
mod meta;
mod sex;
mod tag;
mod tree;
mod utils;
mod validator;
mod values;

pub use action::TagAction;
pub use anonymizer::Anonymizer;
pub use anonymizer::birth_action_model;
pub use anonymizer::lemma_remove_all_get;
pub use anonymizer::name_action_model;
pub use anonymizer::patient_birth_date_tag;
pub use anonymizer::patient_name_tag;
pub use anonymizer::patient_sex_tag;
pub use anonymizer::sex_action_model;
pub use anonymizer::spec_apply_at;
pub use anonymizer::spec_apply_named;
pub use anonymizer::spec_remove_all;
pub use anonymizer::AnonymizerFile;
pub use anonymizer::StoreValue;
pub use anonymizer::StoreValueModel;
pub use anonymizer::VrKind;
pub use anonymizer::apply_plan_obj;
pub use anonymizer::lemma_apply_plan_idempotent;
pub use anonymizer::lemma_keep_plan_noop;
pub use anonymizer::spec_apply_plan;
pub use anonymizer::store_contents;
pub use config::ConfigError;
pub use config::ConfigFileV1;
pub use config::ConfigFileV1_1;
pub use config::ConfigFileVersions;
pub use config::action_str_view;
pub use config::opt_str_view;
pub use config::spec_config_node;
pub use config::spec_conv_date;
pub use config::spec_conv_sex;
pub use config::spec_conv_str;
pub use config::spec_conv_tags;
pub use config::spec_tags_of;
pub use config::spec_v11_ok;
pub use config::spec_v1_ok;
pub use config::spec_version_of;
pub use config::spec_versions_ok;
pub use config::tags_items_ok;
pub use config::v11_date_of;
pub use config::v11_field_ok;
pub use config::v11_name_of;
pub use config::v11_names_bad;
pub use config::v11_sex_of;
pub use config::v11_tags_of;
pub use config::v1_date_of;
pub use config::v1_field_ok;
pub use config::v1_name_of;
pub use config::v1_names_bad;
pub use config::v1_sex_of;
pub use config::v1_tags_of;
pub use date::CustomDicomDateTime;
pub use date::days_in_month;
pub use date::is_leap_year;
pub use date::parse_date;
pub use date::parse_datetime_text;
pub use date::spec_datetime_text;
pub use date::spec_parse_date;
pub use date::spec_parse_datetime;
pub use date::valid_date_text;
pub use date::valid_datetime_text;
pub use errors::ValueParseError;
pub use manager::ConfigAction;
pub use manager::ConfigManager;
pub use meta::AnonymizerMeta;
pub use meta::AnonymizerMetaBuilder;
pub use meta::RemoveTagsInput;
pub use sex::PatientSex;
pub use sex::spec_parse_sex;
pub use sex::spec_sex_code;
pub use tag::CustomTag;
pub use tag::TagParseError;
pub use tag::has_two_tokens;
pub use tag::lemma_parse_round_trip;
pub use tag::lemma_to_text_parses;
pub use tag::parse_tag;
pub use tag::spec_parse_tag;
pub use tag::spec_tag_text;
pub use tag::token_value;
pub use tag::valid_hex_token;
pub use tag::valid_tag_text;
pub use tree::DocEntry;
pub use tree::DocValue;
pub use tree::spec_doc_get;
pub use tree::spec_entries_get;
pub use utils::is_dcm_file;
pub use utils::is_dcm_path;
pub use utils::spec_is_dcm_path;
pub use utils::spec_is_dcm_signature;
pub use validator::ValidatorType;
pub use validator::validator_is_date;
pub use validator::validator_is_dcm_path;
pub use validator::validator_is_sex;
pub use values::AnonymizerValues;
pub use values::lemma_config_stands;
pub use values::lemma_override_wins;
pub use values::lemma_removal_additive;
pub use values::merge_action;
pub use values::spec_merge_action;
