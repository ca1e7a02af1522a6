//! The typed override values of one anonymization run, and the precedence
//! merge that combines them with an optional Config Document into one plan.

use vstd::prelude::*;
use crate::action::TagAction;
use crate::config::{ConfigFileVersions, ConfigFileV1, ConfigFileV1_1};
use crate::date::CustomDicomDateTime;
use crate::meta::{AnonymizerMeta, AnonymizerMetaBuilder};
use crate::sex::PatientSex;
use crate::tag::CustomTag;

verus! {

/// Precedence for one field: an explicit override always wins; only where
/// the override keeps the field does the document's action stand.
pub open spec fn spec_merge_action<T>(over: TagAction<T>, config: TagAction<T>) -> TagAction<T> {
    if over is Keep {
        config
    } else {
        over
    }
}

/// Resolves one field by precedence.
pub fn merge_action<T>(over: TagAction<T>, config: TagAction<T>) -> (r: TagAction<T>)
    ensures
        r == spec_merge_action(over, config),
{
    match over {
        TagAction::Keep => config,
        other => other,
    }
}

/// Precedence law: where the explicit override gives any instruction at
/// all, the resolved action is the override's, whatever the document says.
pub proof fn lemma_override_wins<T>(over: TagAction<T>, config: TagAction<T>)
    requires
        !(over is Keep),
    ensures
        spec_merge_action(over, config) == over,
{
}

/// Where the override keeps the field, the document decides.
pub proof fn lemma_config_stands<T>(over: TagAction<T>, config: TagAction<T>)
    requires
        over is Keep,
    ensures
        spec_merge_action(over, config) == config,
{
}

/// Additivity law: Removal Sets are concatenated, never precedence-merged.
/// The resolved set's length is the sum of both lists' lengths, with the
/// directly-supplied list first, both orders kept.
pub proof fn lemma_removal_additive(direct: Seq<CustomTag>, from_config: Seq<CustomTag>)
    ensures
        (direct + from_config).len() == direct.len() + from_config.len(),
        forall|i: int| 0 <= i < direct.len() ==> (direct + from_config)[i] == direct[i],
        forall|i: int|
            0 <= i < from_config.len() ==> (direct + from_config)[direct.len() + i]
                == from_config[i],
{
}

impl ConfigFileVersions {
    /// The patient name action this document contributes: under schema 1.0
    /// a present value always means overwrite.
    pub open spec fn spec_name_action(self) -> TagAction<String> {
        match self {
            ConfigFileVersions::V1_0(f) => match f.patient_name {
                Option::Some(s) => TagAction::Change(s),
                Option::None => TagAction::Keep,
            },
            ConfigFileVersions::V1_1(f) => f.patient_name,
        }
    }

    /// The birth date action this document contributes.
    pub open spec fn spec_birth_action(self) -> TagAction<CustomDicomDateTime> {
        match self {
            ConfigFileVersions::V1_0(f) => match f.patient_birth_day {
                Option::Some(d) => TagAction::Change(d),
                Option::None => TagAction::Keep,
            },
            ConfigFileVersions::V1_1(f) => f.patient_birth_day,
        }
    }

    /// The sex action this document contributes.
    pub open spec fn spec_sex_action(self) -> TagAction<PatientSex> {
        match self {
            ConfigFileVersions::V1_0(f) => match f.patient_sex {
                Option::Some(p) => TagAction::Change(p),
                Option::None => TagAction::Keep,
            },
            ConfigFileVersions::V1_1(f) => f.patient_sex,
        }
    }

    /// The removal list this document contributes; absent means empty.
    pub open spec fn spec_config_tags(self) -> Seq<CustomTag> {
        match self {
            ConfigFileVersions::V1_0(f) => match f.remove_tags {
                Option::Some(v) => v@,
                Option::None => Seq::empty(),
            },
            ConfigFileVersions::V1_1(f) => f.remove_tags@,
        }
    }
}

/// The typed per-run inputs of one anonymization run, ready for the merge:
/// one action per named field, a direct removal list, and the run's paths
/// and flags.
#[derive(Debug)]
pub struct AnonymizerValues {
    pub input: String,
    pub output: Option<String>,
    pub patient_name: TagAction<String>,
    pub patient_sex: TagAction<PatientSex>,
    pub patient_birth_day: TagAction<CustomDicomDateTime>,
    pub remove_tags: Vec<CustomTag>,
    pub dry_run: bool,
}

impl AnonymizerValues {
    /// Merges a Config Document into these values, field by field: explicit
    /// per-field input always wins over the document's value for that same
    /// field, while the removal lists are additive — the document's entries
    /// follow the direct ones, both orders kept.
    pub fn merge_config(&mut self, config: ConfigFileVersions)
        ensures
            final(self).patient_name == spec_merge_action(
                old(self).patient_name,
                config.spec_name_action(),
            ),
            final(self).patient_birth_day == spec_merge_action(
                old(self).patient_birth_day,
                config.spec_birth_action(),
            ),
            final(self).patient_sex == spec_merge_action(
                old(self).patient_sex,
                config.spec_sex_action(),
            ),
            final(self).remove_tags@ == old(self).remove_tags@ + config.spec_config_tags(),
            final(self).input == old(self).input,
            final(self).output == old(self).output,
            final(self).dry_run == old(self).dry_run,
    {
        let (name_action, birth_action, sex_action, config_tags): (
            TagAction<String>,
            TagAction<CustomDicomDateTime>,
            TagAction<PatientSex>,
            Vec<CustomTag>,
        ) = match config {
            ConfigFileVersions::V1_0(f) => {
                let ConfigFileV1 { patient_name, patient_birth_day, patient_sex, remove_tags } = f;
                (
                    TagAction::from(patient_name),
                    TagAction::from(patient_birth_day),
                    TagAction::from(patient_sex),
                    match remove_tags {
                        Some(v) => v,
                        None => Vec::new(),
                    },
                )
            },
            ConfigFileVersions::V1_1(f) => {
                let ConfigFileV1_1 { patient_name, patient_birth_day, patient_sex, remove_tags } =
                    f;
                (patient_name, patient_birth_day, patient_sex, remove_tags)
            },
        };
        let mut over_name: TagAction<String> = TagAction::Keep;
        core::mem::swap(&mut over_name, &mut self.patient_name);
        self.patient_name = merge_action(over_name, name_action);
        let mut over_birth: TagAction<CustomDicomDateTime> = TagAction::Keep;
        core::mem::swap(&mut over_birth, &mut self.patient_birth_day);
        self.patient_birth_day = merge_action(over_birth, birth_action);
        let mut over_sex: TagAction<PatientSex> = TagAction::Keep;
        core::mem::swap(&mut over_sex, &mut self.patient_sex);
        self.patient_sex = merge_action(over_sex, sex_action);
        let ghost merged_name = self.patient_name;
        let ghost merged_birth = self.patient_birth_day;
        let ghost merged_sex = self.patient_sex;
        let n = config_tags.len();
        let mut i: usize = 0;
        proof {
            assert(self.remove_tags@ + config_tags@.take(0) =~= self.remove_tags@);
        }
        while i < n
            invariant
                i <= n,
                n == config_tags@.len(),
                self.remove_tags@ == old(self).remove_tags@ + config_tags@.take(i as int),
                self.patient_name == merged_name,
                self.patient_birth_day == merged_birth,
                self.patient_sex == merged_sex,
                merged_name == spec_merge_action(old(self).patient_name, config.spec_name_action()),
                merged_birth == spec_merge_action(
                    old(self).patient_birth_day,
                    config.spec_birth_action(),
                ),
                merged_sex == spec_merge_action(old(self).patient_sex, config.spec_sex_action()),
                self.input == old(self).input,
                self.output == old(self).output,
                self.dry_run == old(self).dry_run,
            decreases n - i,
        {
            let t = config_tags[i];
            self.remove_tags.push(t);
            proof {
                assert(config_tags@.take(i + 1) =~= config_tags@.take(i as int).push(
                    config_tags@[i as int],
                ));
                assert(old(self).remove_tags@ + config_tags@.take(i + 1) =~= (old(
                    self,
                ).remove_tags@ + config_tags@.take(i as int)).push(config_tags@[i as int]));
            }
            i = i + 1;
        }
        proof {
            assert(config_tags@.take(n as int) =~= config_tags@);
        }
    }

    /// Finalizes these values into the resolved plan through the builder.
    pub fn match_trait(self) -> (r: AnonymizerMeta)
        ensures
            r.patient_name == self.patient_name,
            r.patient_birth_date == self.patient_birth_day,
            r.patient_sex == self.patient_sex,
            r.remove_tags@ == self.remove_tags@,
    {
        let AnonymizerValues {
            input: _,
            output: _,
            patient_name,
            patient_sex,
            patient_birth_day,
            remove_tags,
            dry_run: _,
        } = self;
        let mut builder = AnonymizerMetaBuilder::default();
        builder.patient_name(patient_name);
        builder.patient_sex(patient_sex);
        builder.patient_birth_date(patient_birth_day);
        builder.remove_tags(crate::meta::RemoveTagsInput::Vec(remove_tags));
        builder.build()
    }
}

} // verus!
