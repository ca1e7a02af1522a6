//! The versioned Config Document: a normalized view of a persisted preset,
//! read out of an already-parsed document tree.
//!
//! Two schema generations coexist. Version 1.0 stores each named field as a
//! plain optional value with no way to express removal; version 1.1 stores
//! each named field as a tri-state action, writing removal as an explicit
//! `null`, and its removal list defaults to empty rather than being
//! optional. An explicit `version` marker selects the schema; a document
//! without one is read as 1.0 for backward compatibility.

use vstd::prelude::*;
use crate::action::TagAction;
use crate::date::{CustomDicomDateTime, parse_date, spec_parse_date, valid_date_text};
use crate::errors::ValueParseError;
use crate::sex::{PatientSex, spec_parse_sex};
use crate::tag::{CustomTag, parse_tag, spec_parse_tag, valid_tag_text};
use crate::tree::{spec_doc_get, str_eq, DocValue};

verus! {

/// Why a Config Document was rejected.
#[derive(Debug, PartialEq, Eq)]
pub enum ConfigError {
    /// A recognized key is present with the wrong shape, named here.
    Shape { key: String },
    /// The text under a recognized key failed to convert to its typed form.
    Value { key: String, error: ValueParseError },
    /// The `version` marker names a schema this loader does not implement.
    UnsupportedVersion { version: String },
}

/// A preset in schema 1.0: plain optional values, no way to express removal.
#[derive(Debug, PartialEq, Eq)]
pub struct ConfigFileV1 {
    pub patient_name: Option<String>,
    pub patient_birth_day: Option<CustomDicomDateTime>,
    pub patient_sex: Option<PatientSex>,
    pub remove_tags: Option<Vec<CustomTag>>,
}

/// A preset in schema 1.1: tri-state actions, removal list always present.
#[derive(Debug, PartialEq, Eq)]
pub struct ConfigFileV1_1 {
    pub patient_name: TagAction<String>,
    pub patient_birth_day: TagAction<CustomDicomDateTime>,
    pub patient_sex: TagAction<PatientSex>,
    pub remove_tags: Vec<CustomTag>,
}

/// A preset of either supported schema generation.
#[derive(Debug, PartialEq, Eq)]
pub enum ConfigFileVersions {
    V1_0(ConfigFileV1),
    V1_1(ConfigFileV1_1),
}

// What one node converts to, for each field type. `None` stands for a node
// of the wrong shape or with an unconvertible value.
pub open spec fn spec_conv_str(v: DocValue) -> Option<Seq<char>> {
    match v {
        DocValue::Str(s) => Option::Some(s@),
        _ => Option::None,
    }
}

pub open spec fn spec_conv_date(v: DocValue) -> Option<CustomDicomDateTime> {
    match v {
        DocValue::Str(s) => if valid_date_text(s@) {
            Option::Some(spec_parse_date(s@))
        } else {
            Option::None
        },
        _ => Option::None,
    }
}

pub open spec fn spec_conv_sex(v: DocValue) -> Option<PatientSex> {
    match v {
        DocValue::Str(s) => spec_parse_sex(s@),
        _ => Option::None,
    }
}

/// Every entry of a removal list must be tag text.
pub open spec fn tags_items_ok(items: Seq<DocValue>) -> bool {
    forall|i: int|
        0 <= i < items.len() ==> (#[trigger] items[i] matches DocValue::Str(s) && valid_tag_text(
            s@,
        ))
}

/// The addresses a removal list denotes.
pub open spec fn spec_tags_of(items: Seq<DocValue>) -> Seq<CustomTag> {
    items.map(
        |i: int, v: DocValue|
            match v {
                DocValue::Str(s) => spec_parse_tag(s@),
                _ => CustomTag { group: 0, element: 0 },
            },
    )
}

pub open spec fn spec_conv_tags(v: DocValue) -> Option<Seq<CustomTag>> {
    match v {
        DocValue::List(items) => if tags_items_ok(items@) {
            Option::Some(spec_tags_of(items@))
        } else {
            Option::None
        },
        _ => Option::None,
    }
}

/// The nested `config` object of a preset document, when it is there and is
/// a map.
pub open spec fn spec_config_node(root: DocValue) -> Option<DocValue> {
    match spec_doc_get(root, "config"@) {
        Option::Some(c) => if c is Mapping {
            Option::Some(c)
        } else {
            Option::None
        },
        Option::None => Option::None,
    }
}

/// The schema the document asks for: the `version` string, `1.0` when the
/// marker is absent, nothing when the marker is no string.
pub open spec fn spec_version_of(root: DocValue) -> Option<Seq<char>> {
    match spec_doc_get(root, "version"@) {
        Option::None => Option::Some("1.0"@),
        Option::Some(v) => match v {
            DocValue::Str(s) => Option::Some(s@),
            _ => Option::None,
        },
    }
}

// The value each recognized key carries under schema 1.0, meaningful where
// the document is well-shaped.
pub open spec fn v1_name_of(c: DocValue) -> Option<Seq<char>> {
    match spec_doc_get(c, "patient_name"@) {
        Option::Some(v) => spec_conv_str(v),
        Option::None => Option::None,
    }
}

pub open spec fn v1_date_of(c: DocValue) -> Option<CustomDicomDateTime> {
    match spec_doc_get(c, "patient_birth_day"@) {
        Option::Some(v) => spec_conv_date(v),
        Option::None => Option::None,
    }
}

pub open spec fn v1_sex_of(c: DocValue) -> Option<PatientSex> {
    match spec_doc_get(c, "patient_sex"@) {
        Option::Some(v) => spec_conv_sex(v),
        Option::None => Option::None,
    }
}

pub open spec fn v1_tags_of(c: DocValue) -> Option<Seq<CustomTag>> {
    match spec_doc_get(c, "remove_tags"@) {
        Option::Some(v) => spec_conv_tags(v),
        Option::None => Option::None,
    }
}

/// One recognized key of schema 1.0 is acceptable when it is absent or its
/// node converts.
pub open spec fn v1_field_ok<A>(c: DocValue, key: Seq<char>, conv: spec_fn(DocValue) -> Option<A>) -> bool {
    match spec_doc_get(c, key) {
        Option::None => true,
        Option::Some(v) => conv(v) is Some,
    }
}

/// A whole document is acceptable under schema 1.0.
pub open spec fn spec_v1_ok(root: DocValue) -> bool {
    match spec_config_node(root) {
        Option::None => false,
        Option::Some(c) => {
            &&& v1_field_ok(c, "patient_name"@, |v: DocValue| spec_conv_str(v))
            &&& v1_field_ok(c, "patient_birth_day"@, |v: DocValue| spec_conv_date(v))
            &&& v1_field_ok(c, "patient_sex"@, |v: DocValue| spec_conv_sex(v))
            &&& v1_field_ok(c, "remove_tags"@, |v: DocValue| spec_conv_tags(v))
        },
    }
}

// The action each recognized key carries under schema 1.1: an absent key
// keeps the field, an explicit `null` removes it, a value overwrites it.
pub open spec fn v11_name_of(c: DocValue) -> TagAction<Seq<char>> {
    match spec_doc_get(c, "patient_name"@) {
        Option::None => TagAction::Keep,
        Option::Some(v) => match v {
            DocValue::Null => TagAction::Remove,
            DocValue::Str(s) => TagAction::Change(s@),
            _ => TagAction::Keep,
        },
    }
}

pub open spec fn v11_date_of(c: DocValue) -> TagAction<CustomDicomDateTime> {
    match spec_doc_get(c, "patient_birth_day"@) {
        Option::None => TagAction::Keep,
        Option::Some(v) => match v {
            DocValue::Null => TagAction::Remove,
            DocValue::Str(s) => if valid_date_text(s@) {
                TagAction::Change(spec_parse_date(s@))
            } else {
                TagAction::Keep
            },
            _ => TagAction::Keep,
        },
    }
}

pub open spec fn v11_sex_of(c: DocValue) -> TagAction<PatientSex> {
    match spec_doc_get(c, "patient_sex"@) {
        Option::None => TagAction::Keep,
        Option::Some(v) => match v {
            DocValue::Null => TagAction::Remove,
            DocValue::Str(s) => match spec_parse_sex(s@) {
                Option::Some(p) => TagAction::Change(p),
                Option::None => TagAction::Keep,
            },
            _ => TagAction::Keep,
        },
    }
}

pub open spec fn v11_tags_of(c: DocValue) -> Seq<CustomTag> {
    match spec_doc_get(c, "remove_tags"@) {
        Option::None => Seq::empty(),
        Option::Some(v) => match spec_conv_tags(v) {
            Option::Some(tags) => tags,
            Option::None => Seq::empty(),
        },
    }
}

/// One recognized key of schema 1.1 is acceptable when it is absent, an
/// explicit `null`, or its node converts.
pub open spec fn v11_field_ok<A>(
    c: DocValue,
    key: Seq<char>,
    conv: spec_fn(DocValue) -> Option<A>,
) -> bool {
    match spec_doc_get(c, key) {
        Option::None => true,
        Option::Some(v) => v is Null || conv(v) is Some,
    }
}

/// A whole document is acceptable under schema 1.1. Its removal list may
/// not be `null`: it defaults to empty only by being absent.
pub open spec fn spec_v11_ok(root: DocValue) -> bool {
    match spec_config_node(root) {
        Option::None => false,
        Option::Some(c) => {
            &&& v11_field_ok(c, "patient_name"@, |v: DocValue| spec_conv_str(v))
            &&& v11_field_ok(c, "patient_birth_day"@, |v: DocValue| spec_conv_date(v))
            &&& v11_field_ok(c, "patient_sex"@, |v: DocValue| spec_conv_sex(v))
            &&& v1_field_ok(c, "remove_tags"@, |v: DocValue| spec_conv_tags(v))
        },
    }
}

/// An error of the schema 1.0 loader points at a real problem under the key
/// it names: the missing or malformed `config` object itself, or a
/// recognized key whose field is unacceptable.
pub open spec fn v1_names_bad(root: DocValue, key: Seq<char>) -> bool {
    ||| (key == "config"@ && spec_config_node(root) is None)
    ||| (spec_config_node(root) matches Option::Some(c) && {
        ||| (key == "patient_name"@ && !v1_field_ok(c, key, |v: DocValue| spec_conv_str(v)))
        ||| (key == "patient_birth_day"@ && !v1_field_ok(c, key, |v: DocValue| spec_conv_date(v)))
        ||| (key == "patient_sex"@ && !v1_field_ok(c, key, |v: DocValue| spec_conv_sex(v)))
        ||| (key == "remove_tags"@ && !v1_field_ok(c, key, |v: DocValue| spec_conv_tags(v)))
    })
}

/// An error of the schema 1.1 loader points at a real problem under the key
/// it names.
pub open spec fn v11_names_bad(root: DocValue, key: Seq<char>) -> bool {
    ||| (key == "config"@ && spec_config_node(root) is None)
    ||| (spec_config_node(root) matches Option::Some(c) && {
        ||| (key == "patient_name"@ && !v11_field_ok(c, key, |v: DocValue| spec_conv_str(v)))
        ||| (key == "patient_birth_day"@ && !v11_field_ok(c, key, |v: DocValue| spec_conv_date(v)))
        ||| (key == "patient_sex"@ && !v11_field_ok(c, key, |v: DocValue| spec_conv_sex(v)))
        ||| (key == "remove_tags"@ && !v1_field_ok(c, key, |v: DocValue| spec_conv_tags(v)))
    })
}

/// The view of a string action, for stating contracts over text.
pub open spec fn action_str_view(a: TagAction<String>) -> TagAction<Seq<char>> {
    match a {
        TagAction::Change(s) => TagAction::Change(s@),
        TagAction::Keep => TagAction::Keep,
        TagAction::Remove => TagAction::Remove,
    }
}

/// The view of an optional string, for stating contracts over text.
pub open spec fn opt_str_view(a: Option<String>) -> Option<Seq<char>> {
    match a {
        Option::Some(s) => Option::Some(s@),
        Option::None => Option::None,
    }
}

fn conv_str(v: &DocValue, key: &str) -> (r: Result<String, ConfigError>)
    ensures
        r matches Ok(s) ==> spec_conv_str(*v) == Option::Some(s@),
        r is Err <==> spec_conv_str(*v) is None,
        r matches Err(e) ==> (e matches ConfigError::Shape { key: k } && k@ == key@),
{
    match v {
        DocValue::Str(s) => {
            proof {
                assert(*v == DocValue::Str(*s));
            }
            Ok(s.clone())
        },
        _ => Err(ConfigError::Shape { key: String::from_str(key) }),
    }
}

fn conv_date(v: &DocValue, key: &str) -> (r: Result<CustomDicomDateTime, ConfigError>)
    ensures
        r matches Ok(d) ==> spec_conv_date(*v) == Option::Some(d) && d.wf(),
        r is Err <==> spec_conv_date(*v) is None,
        r matches Err(e) ==> match e {
            ConfigError::Shape { key: k } => k@ == key@ && !(*v is Str),
            ConfigError::Value { key: k, error: _ } => k@ == key@ && *v is Str,
            _ => false,
        },
{
    match v {
        DocValue::Str(s) => {
            proof {
                assert(*v == DocValue::Str(*s));
            }
            match parse_date(s.as_str()) {
                Ok(d) => Ok(d),
                Err(e) => Err(ConfigError::Value { key: String::from_str(key), error: e }),
            }
        },
        _ => Err(ConfigError::Shape { key: String::from_str(key) }),
    }
}

fn conv_sex(v: &DocValue, key: &str) -> (r: Result<PatientSex, ConfigError>)
    ensures
        r matches Ok(p) ==> spec_conv_sex(*v) == Option::Some(p),
        r is Err <==> spec_conv_sex(*v) is None,
        r matches Err(e) ==> match e {
            ConfigError::Shape { key: k } => k@ == key@ && !(*v is Str),
            ConfigError::Value { key: k, error: _ } => k@ == key@ && *v is Str,
            _ => false,
        },
{
    match v {
        DocValue::Str(s) => {
            proof {
                assert(*v == DocValue::Str(*s));
            }
            match PatientSex::from_str(s.as_str()) {
                Ok(p) => Ok(p),
                Err(e) => Err(ConfigError::Value { key: String::from_str(key), error: e }),
            }
        },
        _ => Err(ConfigError::Shape { key: String::from_str(key) }),
    }
}

fn conv_tags(v: &DocValue, key: &str) -> (r: Result<Vec<CustomTag>, ConfigError>)
    ensures
        r matches Ok(tags) ==> spec_conv_tags(*v) == Option::Some(tags@),
        r is Err <==> spec_conv_tags(*v) is None,
        r matches Err(e) ==> match e {
            ConfigError::Shape { key: k } => k@ == key@,
            ConfigError::Value { key: k, error: _ } => k@ == key@ && *v is List,
            _ => false,
        },
{
    match v {
        DocValue::List(items) => {
            let n = items.len();
            let mut tags: Vec<CustomTag> = Vec::new();
            let mut i: usize = 0;
            while i < n
                invariant
                    i <= n,
                    n == items@.len(),
                    *v == DocValue::List(*items),
                    tags@.len() == i,
                    forall|j: int|
                        0 <= j < i ==> (#[trigger] items@[j] matches DocValue::Str(s)
                            && valid_tag_text(s@) && tags@[j] == spec_parse_tag(s@)),
                decreases n - i,
            {
                match &items[i] {
                    DocValue::Str(s) => {
                        proof {
                            assert(items@[i as int] == DocValue::Str(*s));
                        }
                        match parse_tag(s.as_str()) {
                            Ok(t) => {
                                tags.push(t);
                            },
                            Err(_) => {
                                proof {
                                    assert(!tags_items_ok(items@));
                                }
                                return Err(ConfigError::Value {
                                    key: String::from_str(key),
                                    error: ValueParseError::InvalidTag {
                                        text: String::from_str(s.as_str()),
                                    },
                                });
                            },
                        }
                    },
                    _ => {
                        proof {
                            assert(!tags_items_ok(items@));
                        }
                        return Err(ConfigError::Shape { key: String::from_str(key) });
                    },
                }
                i = i + 1;
            }
            proof {
                assert(tags_items_ok(items@));
                assert(tags@ =~= spec_tags_of(items@));
            }
            Ok(tags)
        },
        _ => Err(ConfigError::Shape { key: String::from_str(key) }),
    }
}

/// Locates the nested `config` object of a preset document.
fn config_node<'a>(root: &'a DocValue) -> (r: Result<&'a DocValue, ConfigError>)
    ensures
        r matches Ok(c) ==> spec_config_node(*root) == Option::Some(*c),
        r is Err <==> spec_config_node(*root) is None,
        r matches Err(e) ==> (e matches ConfigError::Shape { key } && key@ == "config"@),
{
    match root.get("config") {
        Some(c) => {
            if matches!(c, DocValue::Mapping(_)) {
                Ok(c)
            } else {
                Err(ConfigError::Shape { key: String::from_str("config") })
            }
        },
        None => Err(ConfigError::Shape { key: String::from_str("config") }),
    }
}

impl ConfigFileV1 {
    /// A document of schema 1.0 matches the structure read for it.
    pub open spec fn matches_doc(self, root: DocValue) -> bool {
        &&& spec_config_node(root) matches Option::Some(cn) && {
            &&& opt_str_view(self.patient_name) == v1_name_of(cn)
            &&& self.patient_birth_day == v1_date_of(cn)
            &&& self.patient_sex == v1_sex_of(cn)
            &&& match self.remove_tags {
                Option::Some(ts) => v1_tags_of(cn) == Option::Some(ts@),
                Option::None => v1_tags_of(cn) is None,
            }
        }
    }

    /// Reads a schema 1.0 preset out of a parsed document tree: each
    /// recognized key optional, unrecognized keys ignored, any recognized
    /// key of the wrong shape or with an unconvertible value a hard error
    /// naming that key.
    pub fn parse(root: &DocValue) -> (r: Result<ConfigFileV1, ConfigError>)
        ensures
            r is Ok <==> spec_v1_ok(*root),
            r matches Ok(cfg) ==> cfg.matches_doc(*root),
            r matches Ok(cfg) ==> (cfg.patient_birth_day matches Option::Some(d) ==> d.wf()),
            r matches Err(e) ==> match e {
                ConfigError::Shape { key } => v1_names_bad(*root, key@),
                ConfigError::Value { key, error: _ } => v1_names_bad(*root, key@),
                ConfigError::UnsupportedVersion { .. } => false,
            },
    {
        let c = match config_node(root) {
            Ok(c) => c,
            Err(e) => {
                return Err(e);
            },
        };
        let patient_name = match c.get("patient_name") {
            Some(v) => match conv_str(v, "patient_name") {
                Ok(s) => Some(s),
                Err(e) => {
                    return Err(e);
                },
            },
            None => None,
        };
        let patient_birth_day = match c.get("patient_birth_day") {
            Some(v) => match conv_date(v, "patient_birth_day") {
                Ok(d) => Some(d),
                Err(e) => {
                    return Err(e);
                },
            },
            None => None,
        };
        let patient_sex = match c.get("patient_sex") {
            Some(v) => match conv_sex(v, "patient_sex") {
                Ok(p) => Some(p),
                Err(e) => {
                    return Err(e);
                },
            },
            None => None,
        };
        let remove_tags = match c.get("remove_tags") {
            Some(v) => match conv_tags(v, "remove_tags") {
                Ok(ts) => Some(ts),
                Err(e) => {
                    return Err(e);
                },
            },
            None => None,
        };
        Ok(ConfigFileV1 { patient_name, patient_birth_day, patient_sex, remove_tags })
    }
}

impl ConfigFileV1_1 {
    /// A document of schema 1.1 matches the structure read for it.
    pub open spec fn matches_doc(self, root: DocValue) -> bool {
        &&& spec_config_node(root) matches Option::Some(cn) && {
            &&& action_str_view(self.patient_name) == v11_name_of(cn)
            &&& self.patient_birth_day == v11_date_of(cn)
            &&& self.patient_sex == v11_sex_of(cn)
            &&& self.remove_tags@ == v11_tags_of(cn)
        }
    }

    /// Reads a schema 1.1 preset out of a parsed document tree: each
    /// recognized key either absent (keep), an explicit `null` (remove) or
    /// a value (change); the removal list defaults to empty when absent.
    pub fn parse(root: &DocValue) -> (r: Result<ConfigFileV1_1, ConfigError>)
        ensures
            r is Ok <==> spec_v11_ok(*root),
            r matches Ok(cfg) ==> cfg.matches_doc(*root),
            r matches Ok(cfg) ==> (cfg.patient_birth_day matches TagAction::Change(d) ==> d.wf()),
            r matches Err(e) ==> match e {
                ConfigError::Shape { key } => v11_names_bad(*root, key@),
                ConfigError::Value { key, error: _ } => v11_names_bad(*root, key@),
                ConfigError::UnsupportedVersion { .. } => false,
            },
    {
        let c = match config_node(root) {
            Ok(c) => c,
            Err(e) => {
                return Err(e);
            },
        };
        let patient_name = match c.get("patient_name") {
            Some(v) => {
                if matches!(v, DocValue::Null) {
                    TagAction::Remove
                } else {
                    match conv_str(v, "patient_name") {
                        Ok(s) => TagAction::Change(s),
                        Err(e) => {
                            return Err(e);
                        },
                    }
                }
            },
            None => TagAction::Keep,
        };
        let patient_birth_day = match c.get("patient_birth_day") {
            Some(v) => {
                if matches!(v, DocValue::Null) {
                    TagAction::Remove
                } else {
                    match conv_date(v, "patient_birth_day") {
                        Ok(d) => TagAction::Change(d),
                        Err(e) => {
                            return Err(e);
                        },
                    }
                }
            },
            None => TagAction::Keep,
        };
        let patient_sex = match c.get("patient_sex") {
            Some(v) => {
                if matches!(v, DocValue::Null) {
                    TagAction::Remove
                } else {
                    match conv_sex(v, "patient_sex") {
                        Ok(p) => TagAction::Change(p),
                        Err(e) => {
                            return Err(e);
                        },
                    }
                }
            },
            None => TagAction::Keep,
        };
        let remove_tags = match c.get("remove_tags") {
            Some(v) => match conv_tags(v, "remove_tags") {
                Ok(ts) => ts,
                Err(e) => {
                    return Err(e);
                },
            },
            None => Vec::new(),
        };
        Ok(ConfigFileV1_1 { patient_name, patient_birth_day, patient_sex, remove_tags })
    }
}

/// Whether a whole document is acceptable: a known schema selected by its
/// version marker, and acceptable under that schema.
pub open spec fn spec_versions_ok(root: DocValue) -> bool {
    match spec_version_of(root) {
        Option::None => false,
        Option::Some(v) => if v == "1.0"@ {
            spec_v1_ok(root)
        } else if v == "1.1"@ {
            spec_v11_ok(root)
        } else {
            false
        },
    }
}

impl ConfigFileVersions {
    /// Reads a preset of either schema out of a parsed document tree,
    /// selecting the schema by the `version` marker: absent means 1.0, an
    /// unknown version is a hard error and never silently mapped to a known
    /// one.
    pub fn parse(root: &DocValue) -> (r: Result<ConfigFileVersions, ConfigError>)
        ensures
            r is Ok <==> spec_versions_ok(*root),
            r matches Ok(ConfigFileVersions::V1_0(cfg)) ==> spec_version_of(*root)
                == Option::Some("1.0"@) && cfg.matches_doc(*root) && (
            cfg.patient_birth_day matches Option::Some(d) ==> d.wf()),
            r matches Ok(ConfigFileVersions::V1_1(cfg)) ==> spec_version_of(*root)
                == Option::Some("1.1"@) && cfg.matches_doc(*root) && (
            cfg.patient_birth_day matches TagAction::Change(d) ==> d.wf()),
            r matches Err(ConfigError::UnsupportedVersion { version }) ==> spec_version_of(*root)
                == Option::Some(version@) && version@ != "1.0"@ && version@ != "1.1"@,
            r matches Err(ConfigError::Shape { key }) ==> {
                ||| (key@ == "version"@ && spec_version_of(*root) is None)
                ||| (spec_version_of(*root) == Option::Some("1.0"@) && v1_names_bad(*root, key@))
                ||| (spec_version_of(*root) == Option::Some("1.1"@) && v11_names_bad(*root, key@))
            },
            r matches Err(ConfigError::Value { key, error: _ }) ==> {
                ||| (spec_version_of(*root) == Option::Some("1.0"@) && v1_names_bad(*root, key@))
                ||| (spec_version_of(*root) == Option::Some("1.1"@) && v11_names_bad(*root, key@))
            },
    {
        let version: String = match root.get("version") {
            Some(v) => match v {
                DocValue::Str(s) => {
                    proof {
                        assert(*v == DocValue::Str(*s));
                    }
                    s.clone()
                },
                _ => {
                    return Err(ConfigError::Shape { key: String::from_str("version") });
                },
            },
            None => String::from_str("1.0"),
        };
        if str_eq(version.as_str(), "1.0") {
            match ConfigFileV1::parse(root) {
                Ok(cfg) => Ok(ConfigFileVersions::V1_0(cfg)),
                Err(e) => Err(e),
            }
        } else if str_eq(version.as_str(), "1.1") {
            match ConfigFileV1_1::parse(root) {
                Ok(cfg) => Ok(ConfigFileVersions::V1_1(cfg)),
                Err(e) => Err(e),
            }
        } else {
            Err(ConfigError::UnsupportedVersion { version })
        }
    }
}

} // verus!
