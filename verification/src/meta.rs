//! The resolved Anonymization Plan: one action per supported named field
//! plus a Removal Set, and the builder that accumulates instructions into
//! one.

use vstd::prelude::*;
use crate::action::TagAction;
use crate::date::CustomDicomDateTime;
use crate::sex::PatientSex;
use crate::tag::CustomTag;

verus! {

/// A resolved plan: every named field has exactly one action, never
/// "unset", and the Removal Set lists addresses to delete outright.
#[derive(Debug, PartialEq, Eq)]
pub struct AnonymizerMeta {
    pub patient_name: TagAction<String>,
    pub patient_birth_date: TagAction<CustomDicomDateTime>,
    pub remove_tags: Vec<CustomTag>,
    pub patient_sex: TagAction<PatientSex>,
}

impl AnonymizerMeta {
    /// Any date written by the plan must be a real calendar date.
    pub open spec fn wf(self) -> bool {
        self.patient_birth_date matches TagAction::Change(d) ==> d.wf()
    }
}

/// A contribution to the Removal Set, as a list of addresses.
#[derive(Debug, PartialEq, Eq)]
pub enum RemoveTagsInput {
    Vec(Vec<CustomTag>),
}

impl RemoveTagsInput {
    /// The addresses this contribution carries.
    pub open spec fn view_tags(self) -> Seq<CustomTag> {
        match self {
            RemoveTagsInput::Vec(v) => v@,
        }
    }
}

impl From<Vec<CustomTag>> for RemoveTagsInput {
    fn from(v: Vec<CustomTag>) -> (r: Self) {
        RemoveTagsInput::Vec(v)
    }
}

impl vstd::std_specs::convert::FromSpecImpl<Vec<CustomTag>> for RemoveTagsInput {
    open spec fn obeys_from_spec() -> bool {
        true
    }

    open spec fn from_spec(v: Vec<CustomTag>) -> Self {
        RemoveTagsInput::Vec(v)
    }
}

/// Accumulates instructions from several sources; fields left unset resolve
/// to their defaults when the plan is built, so the plan is always total.
#[derive(Debug)]
pub struct AnonymizerMetaBuilder {
    patient_name: Option<TagAction<String>>,
    patient_birth_date: Option<TagAction<CustomDicomDateTime>>,
    remove_tags: Option<Vec<CustomTag>>,
    patient_sex: Option<TagAction<PatientSex>>,
}

impl AnonymizerMetaBuilder {
    pub closed spec fn spec_patient_name(self) -> Option<TagAction<String>> {
        self.patient_name
    }

    pub closed spec fn spec_patient_birth_date(self) -> Option<TagAction<CustomDicomDateTime>> {
        self.patient_birth_date
    }

    pub closed spec fn spec_remove_tags(self) -> Option<Vec<CustomTag>> {
        self.remove_tags
    }

    pub closed spec fn spec_patient_sex(self) -> Option<TagAction<PatientSex>> {
        self.patient_sex
    }

    /// The Removal Set the plan will get if built now.
    pub open spec fn spec_tags_or_empty(self) -> Seq<CustomTag> {
        match self.spec_remove_tags() {
            Option::Some(v) => v@,
            Option::None => Seq::empty(),
        }
    }

    pub fn patient_name(&mut self, value: TagAction<String>)
        ensures
            final(self).spec_patient_name() == Option::Some(value),
            final(self).spec_patient_birth_date() == old(self).spec_patient_birth_date(),
            final(self).spec_remove_tags() == old(self).spec_remove_tags(),
            final(self).spec_patient_sex() == old(self).spec_patient_sex(),
    {
        self.patient_name = Some(value);
    }

    pub fn patient_birth_date(&mut self, value: TagAction<CustomDicomDateTime>)
        ensures
            final(self).spec_patient_birth_date() == Option::Some(value),
            final(self).spec_patient_name() == old(self).spec_patient_name(),
            final(self).spec_remove_tags() == old(self).spec_remove_tags(),
            final(self).spec_patient_sex() == old(self).spec_patient_sex(),
    {
        self.patient_birth_date = Some(value);
    }

    pub fn patient_sex(&mut self, value: TagAction<PatientSex>)
        ensures
            final(self).spec_patient_sex() == Option::Some(value),
            final(self).spec_patient_name() == old(self).spec_patient_name(),
            final(self).spec_patient_birth_date() == old(self).spec_patient_birth_date(),
            final(self).spec_remove_tags() == old(self).spec_remove_tags(),
    {
        self.patient_sex = Some(value);
    }

    /// Adds one address to the Removal Set contribution.
    pub fn remove_tag(&mut self, value: CustomTag)
        ensures
            final(self).spec_remove_tags() is Some,
            final(self).spec_tags_or_empty() == old(self).spec_tags_or_empty().push(value),
            final(self).spec_patient_name() == old(self).spec_patient_name(),
            final(self).spec_patient_birth_date() == old(self).spec_patient_birth_date(),
            final(self).spec_patient_sex() == old(self).spec_patient_sex(),
    {
        if self.remove_tags.is_none() {
            self.remove_tags = Some(Vec::new());
            proof {
                assert(self.spec_tags_or_empty() =~= Seq::<CustomTag>::empty());
            }
        }
        match &mut self.remove_tags {
            Some(v) => {
                v.push(value);
            },
            None => {
                proof {
                    assert(false);
                }
            },
        }
    }

    /// Adds a whole Removal Set contribution, keeping its order.
    pub fn remove_tags(&mut self, values: RemoveTagsInput)
        ensures
            final(self).spec_remove_tags() is Some,
            final(self).spec_tags_or_empty() == old(self).spec_tags_or_empty()
                + values.view_tags(),
            final(self).spec_patient_name() == old(self).spec_patient_name(),
            final(self).spec_patient_birth_date() == old(self).spec_patient_birth_date(),
            final(self).spec_patient_sex() == old(self).spec_patient_sex(),
    {
        let RemoveTagsInput::Vec(items) = values;
        let n = items.len();
        let mut i: usize = 0;
        proof {
            assert(self.spec_tags_or_empty() + items@.take(0) =~= self.spec_tags_or_empty());
        }
        if n == 0 {
            if self.remove_tags.is_none() {
                self.remove_tags = Some(Vec::new());
                proof {
                    assert(self.spec_tags_or_empty() =~= Seq::<CustomTag>::empty());
                    assert(old(self).spec_tags_or_empty() + items@ =~= Seq::<CustomTag>::empty());
                }
            } else {
                proof {
                    assert(self.spec_tags_or_empty() + items@ =~= self.spec_tags_or_empty());
                }
            }
            return ;
        }
        while i < n
            invariant
                i <= n,
                n == items@.len(),
                i > 0 ==> self.spec_remove_tags() is Some,
                self.spec_tags_or_empty() == old(self).spec_tags_or_empty() + items@.take(
                    i as int,
                ),
                self.spec_patient_name() == old(self).spec_patient_name(),
                self.spec_patient_birth_date() == old(self).spec_patient_birth_date(),
                self.spec_patient_sex() == old(self).spec_patient_sex(),
            decreases n - i,
        {
            let t = items[i];
            self.remove_tag(t);
            proof {
                assert(items@.take(i + 1) =~= items@.take(i as int).push(items@[i as int]));
                assert(old(self).spec_tags_or_empty() + items@.take(i + 1) =~= (old(
                    self,
                ).spec_tags_or_empty() + items@.take(i as int)).push(items@[i as int]));
            }
            i = i + 1;
        }
        proof {
            assert(items@.take(n as int) =~= items@);
        }
    }

    /// Finalizes the plan: every field left unset resolves to its default —
    /// Keep for the named fields, an empty Removal Set — so the plan is
    /// total by construction.
    pub fn build(self) -> (r: AnonymizerMeta)
        ensures
            r.patient_name == (match self.spec_patient_name() {
                Option::Some(a) => a,
                Option::None => TagAction::<String>::Keep,
            }),
            r.patient_birth_date == (match self.spec_patient_birth_date() {
                Option::Some(a) => a,
                Option::None => TagAction::<CustomDicomDateTime>::Keep,
            }),
            r.patient_sex == (match self.spec_patient_sex() {
                Option::Some(a) => a,
                Option::None => TagAction::<PatientSex>::Keep,
            }),
            r.remove_tags@ == self.spec_tags_or_empty(),
    {
        let AnonymizerMetaBuilder { patient_name, patient_birth_date, remove_tags, patient_sex } =
            self;
        AnonymizerMeta {
            patient_name: match patient_name {
                Some(a) => a,
                None => TagAction::Keep,
            },
            patient_birth_date: match patient_birth_date {
                Some(a) => a,
                None => TagAction::Keep,
            },
            remove_tags: match remove_tags {
                Some(v) => v,
                None => Vec::new(),
            },
            patient_sex: match patient_sex {
                Some(a) => a,
                None => TagAction::Keep,
            },
        }
    }
}

impl Default for AnonymizerMetaBuilder {
    /// A fresh builder with no instruction recorded yet.
    fn default() -> (r: Self)
        ensures
            r.spec_patient_name() is None,
            r.spec_patient_birth_date() is None,
            r.spec_remove_tags() is None,
            r.spec_patient_sex() is None,
    {
        AnonymizerMetaBuilder {
            patient_name: None,
            patient_birth_date: None,
            remove_tags: None,
            patient_sex: None,
        }
    }
}

} // verus!
