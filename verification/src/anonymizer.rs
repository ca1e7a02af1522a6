//! The Apply Engine: holds the record object under edit and performs a
//! resolved plan against it, field by field, then address by address.
//!
//! The record store itself is dicom-object's in-memory DICOM object; its
//! element map is modelled here as a map from field address to the stored
//! representation and value, and every write goes through a trusted wrapper
//! whose contract speaks over that model.

use vstd::prelude::*;
use dicom_core::value::{DicomDate, DicomDateTime, DicomTime};
use crate::action::TagAction;
use crate::date::CustomDicomDateTime;
use crate::meta::{AnonymizerMeta, AnonymizerMetaBuilder};
use crate::sex::spec_sex_code;
use crate::tag::CustomTag;

verus! {

#[verifier::external_type_specification]
#[verifier::external_body]
#[verifier::reject_recursive_types(O)]
pub struct ExFileDicomObject<O>(dicom_object::FileDicomObject<O>);

#[verifier::external_type_specification]
#[verifier::external_body]
#[verifier::reject_recursive_types(D)]
pub struct ExInMemDicomObject<D>(dicom_object::InMemDicomObject<D>);

#[verifier::external_type_specification]
#[verifier::external_body]
pub struct ExStandardDataDictionary(dicom_object::StandardDataDictionary);

/// The representation a written element carries.
#[derive(Debug, Clone, Copy, PartialEq, Eq, Structural)]
pub enum VrKind {
    PersonName,
    Date,
    CodeString,
}

/// A plain value to write into the record.
#[derive(Debug)]
pub enum StoreValue {
    Str(String),
    DateTime(CustomDicomDateTime),
}

/// The mathematical stand-in of one stored value.
pub enum StoreValueModel {
    Str(Seq<char>),
    DateTime(CustomDicomDateTime),
}

impl StoreValue {
    /// A date written into the record must be a real calendar date.
    pub open spec fn wf(self) -> bool {
        match self {
            StoreValue::Str(_) => true,
            StoreValue::DateTime(d) => d.wf(),
        }
    }
}

impl View for StoreValue {
    type V = StoreValueModel;

    open spec fn view(&self) -> StoreValueModel {
        match self {
            StoreValue::Str(s) => StoreValueModel::Str(s@),
            StoreValue::DateTime(d) => StoreValueModel::DateTime(*d),
        }
    }
}

/// What the record object holds: for every present field address, the
/// representation and value of its element. Named for dicom-object's
/// `InMemDicomObject`, whose elements form a map keyed by tag.
pub uninterp spec fn store_contents(obj: dicom_object::DefaultDicomObject) -> Map<
    CustomTag,
    (VrKind, StoreValueModel),
>;

/// Relies on `InMemDicomObject::put` (reached through `FileDicomObject`'s
/// `DerefMut`): inserting a data element replaces any element with the same
/// tag and leaves every other element; and on dicom-core's
/// `DicomDate::from_ymd`, `DicomTime::from_hms`,
/// `DicomDateTime::from_date_and_time` and chrono's `FixedOffset::east_opt`,
/// which are total for components that form a real date and time with an
/// offset below one day.
#[verifier::external_body]
fn put_element(
    obj: &mut dicom_object::DefaultDicomObject,
    tag: &CustomTag,
    vr: VrKind,
    value: StoreValue,
)
    requires
        value.wf(),
    ensures
        store_contents(*final(obj)) == store_contents(*old(obj)).insert(*tag, (vr, value@)),
{
    let prim = match value {
        StoreValue::Str(s) => dicom_core::PrimitiveValue::from(s),
        StoreValue::DateTime(d) => {
            let date = DicomDate::from_ymd(d.year, d.month, d.day).unwrap();
            let time = DicomTime::from_hms(d.hour, d.minute, d.second).unwrap();
            let off = chrono::FixedOffset::east_opt(d.offset_seconds).unwrap();
            dicom_core::PrimitiveValue::from(DicomDateTime::from_date_and_time(date, time, off).unwrap())
        },
    };
    let vr = match vr { VrKind::PersonName => dicom_core::VR::PN, VrKind::Date => dicom_core::VR::DA, VrKind::CodeString => dicom_core::VR::CS };
    obj.put(dicom_core::DataElement::new(dicom_core::Tag(tag.group, tag.element), vr, dicom_core::DicomValue::from(prim)));
}

/// Relies on `InMemDicomObject::remove_element`: deletes the element with
/// the tag if present, a no-op otherwise, reporting whether it was present.
#[verifier::external_body]
fn remove_element(obj: &mut dicom_object::DefaultDicomObject, tag: &CustomTag) -> (r: bool)
    ensures
        store_contents(*final(obj)) == store_contents(*old(obj)).remove(*tag),
        r == store_contents(*old(obj)).dom().contains(*tag),
{
    obj.remove_element(dicom_core::Tag(tag.group, tag.element))
}

/// The known address of the patient name field.
pub open spec fn patient_name_tag() -> CustomTag {
    CustomTag { group: 0x0010, element: 0x0010 }
}

/// The known address of the patient birth date field.
pub open spec fn patient_birth_date_tag() -> CustomTag {
    CustomTag { group: 0x0010, element: 0x0030 }
}

/// The known address of the patient sex field.
pub open spec fn patient_sex_tag() -> CustomTag {
    CustomTag { group: 0x0010, element: 0x0040 }
}

fn pn_tag() -> (r: CustomTag)
    ensures
        r == patient_name_tag(),
{
    CustomTag::new(0x0010, 0x0010)
}

fn pbd_tag() -> (r: CustomTag)
    ensures
        r == patient_birth_date_tag(),
{
    CustomTag::new(0x0010, 0x0030)
}

fn ps_tag() -> (r: CustomTag)
    ensures
        r == patient_sex_tag(),
{
    CustomTag::new(0x0010, 0x0040)
}

/// One named-field step of the per-field pass, on the model: overwrite,
/// leave, or delete.
pub open spec fn spec_apply_at(
    s: Map<CustomTag, (VrKind, StoreValueModel)>,
    tag: CustomTag,
    vr: VrKind,
    a: TagAction<StoreValueModel>,
) -> Map<CustomTag, (VrKind, StoreValueModel)> {
    match a {
        TagAction::Keep => s,
        TagAction::Change(v) => s.insert(tag, (vr, v)),
        TagAction::Remove => s.remove(tag),
    }
}

/// The model of the patient name action.
pub open spec fn name_action_model(a: TagAction<String>) -> TagAction<StoreValueModel> {
    match a {
        TagAction::Keep => TagAction::Keep,
        TagAction::Change(v) => TagAction::Change(StoreValueModel::Str(v@)),
        TagAction::Remove => TagAction::Remove,
    }
}

/// The model of the birth date action.
pub open spec fn birth_action_model(a: TagAction<CustomDicomDateTime>) -> TagAction<
    StoreValueModel,
> {
    match a {
        TagAction::Keep => TagAction::Keep,
        TagAction::Change(d) => TagAction::Change(StoreValueModel::DateTime(d)),
        TagAction::Remove => TagAction::Remove,
    }
}

/// The model of the sex action: the record stores the one-letter code.
pub open spec fn sex_action_model(a: TagAction<crate::sex::PatientSex>) -> TagAction<
    StoreValueModel,
> {
    match a {
        TagAction::Keep => TagAction::Keep,
        TagAction::Change(p) => TagAction::Change(StoreValueModel::Str(spec_sex_code(p))),
        TagAction::Remove => TagAction::Remove,
    }
}

/// The per-field pass of a plan: patient name, then birth date, then sex.
pub open spec fn spec_apply_named(meta: AnonymizerMeta, s: Map<CustomTag, (VrKind, StoreValueModel)>) -> Map<CustomTag, (VrKind, StoreValueModel)> {
    spec_apply_at(
        spec_apply_at(
            spec_apply_at(
                s,
                patient_name_tag(),
                VrKind::PersonName,
                name_action_model(meta.patient_name),
            ),
            patient_birth_date_tag(),
            VrKind::Date,
            birth_action_model(meta.patient_birth_date),
        ),
        patient_sex_tag(),
        VrKind::CodeString,
        sex_action_model(meta.patient_sex),
    )
}

/// Deletes every listed address, front to back.
pub open spec fn spec_remove_all(
    s: Map<CustomTag, (VrKind, StoreValueModel)>,
    tags: Seq<CustomTag>,
) -> Map<CustomTag, (VrKind, StoreValueModel)>
    decreases tags.len(),
{
    if tags.len() == 0 {
        s
    } else {
        spec_remove_all(s.remove(tags[0]), tags.drop_first())
    }
}

/// What applying a whole resolved plan does to the store state: the
/// per-field pass first, then every Removal Set entry unconditionally — so
/// a removal listed for a named field undoes that field's earlier write, a
/// deliberate last-write-wins rule.
pub open spec fn spec_apply_plan(meta: AnonymizerMeta, s: Map<CustomTag, (VrKind, StoreValueModel)>) -> Map<CustomTag, (VrKind, StoreValueModel)> {
    spec_remove_all(spec_apply_named(meta, s), meta.remove_tags@)
}

/// Pointwise reading of the removal pass: an address survives it exactly
/// when it is not listed, with its value untouched.
pub proof fn lemma_remove_all_get(
    s: Map<CustomTag, (VrKind, StoreValueModel)>,
    tags: Seq<CustomTag>,
    k: CustomTag,
)
    ensures
        spec_remove_all(s, tags).dom().contains(k) <==> (s.dom().contains(k) && !tags.contains(
            k,
        )),
        (s.dom().contains(k) && !tags.contains(k)) ==> spec_remove_all(s, tags)[k] == s[k],
    decreases tags.len(),
{
    if tags.len() > 0 {
        lemma_remove_all_get(s.remove(tags[0]), tags.drop_first(), k);
        assert(tags.contains(k) <==> (tags[0] == k || tags.drop_first().contains(k))) by {
            if tags.contains(k) {
                let i = choose|i: int| 0 <= i < tags.len() && tags[i] == k;
                if i > 0 {
                    assert(tags.drop_first()[i - 1] == k);
                }
            }
            if tags.drop_first().contains(k) {
                let i = choose|i: int|
                    0 <= i < tags.drop_first().len() && tags.drop_first()[i] == k;
                assert(tags[i + 1] == k);
            }
        }
    }
}

/// A step of the removal loop: deleting one more listed address extends the
/// removal pass by one entry.
proof fn lemma_remove_all_push(
    s: Map<CustomTag, (VrKind, StoreValueModel)>,
    tags: Seq<CustomTag>,
    t: CustomTag,
)
    ensures
        spec_remove_all(s, tags.push(t)) == spec_remove_all(s, tags).remove(t),
    decreases tags.len(),
{
    if tags.len() == 0 {
        assert(tags.push(t).drop_first() =~= Seq::<CustomTag>::empty());
        assert(spec_remove_all(s, tags.push(t)) == spec_remove_all(
            s.remove(t),
            tags.push(t).drop_first(),
        ));
    } else {
        assert(tags.push(t).drop_first() =~= tags.drop_first().push(t));
        lemma_remove_all_push(s.remove(tags[0]), tags.drop_first(), t);
    }
}

/// The Apply Engine's core: performs a resolved plan against a record
/// object, per named field exactly one write, no-op or delete, then every
/// Removal Set address deleted unconditionally.
pub fn apply_plan_obj(obj: &mut dicom_object::DefaultDicomObject, meta: &AnonymizerMeta)
    requires
        meta.wf(),
    ensures
        store_contents(*final(obj)) == spec_apply_plan(*meta, store_contents(*old(obj))),
{
    match &meta.patient_name {
        TagAction::Change(v) => {
            put_element(obj, &pn_tag(), VrKind::PersonName, StoreValue::Str(v.clone()));
        },
        TagAction::Keep => {},
        TagAction::Remove => {
            let _ = remove_element(obj, &pn_tag());
        },
    }
    match &meta.patient_birth_date {
        TagAction::Change(d) => {
            put_element(obj, &pbd_tag(), VrKind::Date, StoreValue::DateTime(*d));
        },
        TagAction::Keep => {},
        TagAction::Remove => {
            let _ = remove_element(obj, &pbd_tag());
        },
    }
    match &meta.patient_sex {
        TagAction::Change(p) => {
            put_element(
                obj,
                &ps_tag(),
                VrKind::CodeString,
                StoreValue::Str(String::from_str(p.value())),
            );
        },
        TagAction::Keep => {},
        TagAction::Remove => {
            let _ = remove_element(obj, &ps_tag());
        },
    }
    let ghost named = spec_apply_named(*meta, store_contents(*old(obj)));
    proof {
        assert(store_contents(*obj) == named);
        assert(named =~= spec_remove_all(named, meta.remove_tags@.take(0)));
    }
    let n = meta.remove_tags.len();
    let mut i: usize = 0;
    while i < n
        invariant
            i <= n,
            n == meta.remove_tags@.len(),
            meta.wf(),
            store_contents(*obj) == spec_remove_all(named, meta.remove_tags@.take(i as int)),
        decreases n - i,
    {
        let t = meta.remove_tags[i];
        let _ = remove_element(obj, &t);
        proof {
            assert(meta.remove_tags@.take(i + 1) =~= meta.remove_tags@.take(i as int).push(
                meta.remove_tags@[i as int],
            ));
            lemma_remove_all_push(
                named,
                meta.remove_tags@.take(i as int),
                meta.remove_tags@[i as int],
            );
        }
        i = i + 1;
    }
    proof {
        assert(meta.remove_tags@.take(n as int) =~= meta.remove_tags@);
    }
}

/// The record object under edit, and whether its edits are still pending.
#[derive(Debug)]
pub struct AnonymizerFile {
    pub obj: dicom_object::DefaultDicomObject,
    pub updated_obj: bool,
}

/// One anonymization run: the record object, if one was handed over, and
/// the plan to perform against it.
#[derive(Debug)]
pub struct Anonymizer {
    pub file: Option<AnonymizerFile>,
    pub meta: AnonymizerMeta,
}

impl Anonymizer {
    /// A fresh run: no record object yet, and a plan that changes nothing.
    pub fn new() -> (r: Self)
        ensures
            r.file is None,
            r.meta.patient_name is Keep,
            r.meta.patient_birth_date is Keep,
            r.meta.patient_sex is Keep,
            r.meta.remove_tags@ == Seq::<CustomTag>::empty(),
            r.meta.wf(),
    {
        let r = Anonymizer { file: None, meta: AnonymizerMetaBuilder::default().build() };
        proof {
            assert(r.meta.remove_tags@ =~= Seq::<CustomTag>::empty());
        }
        r
    }

    /// Begins a run over a record object handed over by the host.
    pub fn from_object(object: dicom_object::DefaultDicomObject) -> (r: Self)
        ensures
            r.file matches Some(f) && store_contents(f.obj) == store_contents(object)
                && !f.updated_obj,
            r.meta.patient_name is Keep,
            r.meta.patient_birth_date is Keep,
            r.meta.patient_sex is Keep,
            r.meta.remove_tags@ == Seq::<CustomTag>::empty(),
            r.meta.wf(),
    {
        let mut r = Self::new();
        r.file = Some(AnonymizerFile { obj: object, updated_obj: false });
        r
    }

    /// A fresh builder for the run's plan.
    pub fn meta_builder() -> (r: AnonymizerMetaBuilder)
        ensures
            r.spec_patient_name() is None,
            r.spec_patient_birth_date() is None,
            r.spec_remove_tags() is None,
            r.spec_patient_sex() is None,
    {
        AnonymizerMetaBuilder::default()
    }

    /// Installs the resolved plan for this run.
    pub fn meta(&mut self, meta: AnonymizerMeta)
        ensures
            final(self).meta == meta,
            final(self).file == old(self).file,
    {
        self.meta = meta;
    }

    /// The record object of this run, for a host that wants to read or
    /// persist it.
    pub fn object(&self) -> (r: Option<&dicom_object::DefaultDicomObject>)
        ensures
            match r {
                Option::Some(o) => (self.file matches Some(f) && *o == f.obj),
                Option::None => self.file is None,
            },
    {
        match &self.file {
            Some(f) => Some(&f.obj),
            None => None,
        }
    }

    /// Applies this run's plan to its record object, in place. The store
    /// state afterwards is exactly the plan applied to the state before;
    /// writes already made stay made even if the host stops afterwards.
    pub fn anonymize(&mut self)
        requires
            old(self).file is Some,
            old(self).meta.wf(),
        ensures
            final(self).meta == old(self).meta,
            old(self).file matches Some(oldf) ==> (final(self).file matches Some(f)
                && f.updated_obj == oldf.updated_obj && store_contents(f.obj) == spec_apply_plan(
                old(self).meta,
                store_contents(oldf.obj),
            )),
    {
        let mut file_opt: Option<AnonymizerFile> = None;
        core::mem::swap(&mut file_opt, &mut self.file);
        match file_opt {
            Some(mut f) => {
                apply_plan_obj(&mut f.obj, &self.meta);
                self.file = Some(f);
            },
            None => {
                proof {
                    assert(false);
                }
            },
        }
    }
}

/// Keep is a true no-op: a plan whose every named action is Keep and whose
/// Removal Set is empty leaves any store state unchanged.
pub proof fn lemma_keep_plan_noop(meta: AnonymizerMeta, s: Map<CustomTag, (VrKind, StoreValueModel)>)
    requires
        meta.patient_name is Keep,
        meta.patient_birth_date is Keep,
        meta.patient_sex is Keep,
        meta.remove_tags@.len() == 0,
    ensures
        spec_apply_plan(meta, s) == s,
{
    assert(spec_apply_named(meta, s) == s);
}

/// Idempotence: applying a resolved plan to a store state twice yields the
/// same state as applying it once — overwrites are absolute, and deletes
/// and keeps are no-ops on repetition.
pub proof fn lemma_apply_plan_idempotent(
    meta: AnonymizerMeta,
    s: Map<CustomTag, (VrKind, StoreValueModel)>,
)
    ensures
        spec_apply_plan(meta, spec_apply_plan(meta, s)) == spec_apply_plan(meta, s),
{
    let tags = meta.remove_tags@;
    let f1 = spec_apply_named(meta, s);
    let r1 = spec_remove_all(f1, tags);
    let f2 = spec_apply_named(meta, r1);
    let r2 = spec_remove_all(f2, tags);
    assert forall|k: CustomTag|
        #![trigger r2.dom().contains(k)]
        #![trigger r1.dom().contains(k)]
        (r2.dom().contains(k) <==> r1.dom().contains(k)) && (r1.dom().contains(k)
            ==> r2[k] == r1[k]) by {
        lemma_remove_all_get(f1, tags, k);
        lemma_remove_all_get(f2, tags, k);
        if !tags.contains(k) {
            lemma_named_same_at(meta, s, r1, k);
        }
    }
    assert(r2 =~= r1);
}

/// At any address that is either named with a decisive action or untouched
/// by the per-field pass, the pass gives the same outcome over two store
/// states that agree at that address.
proof fn lemma_named_same_at(
    meta: AnonymizerMeta,
    s: Map<CustomTag, (VrKind, StoreValueModel)>,
    s2: Map<CustomTag, (VrKind, StoreValueModel)>,
    k: CustomTag,
)
    requires
        s2.dom().contains(k) ==> (spec_remove_all(spec_apply_named(meta, s),
        meta.remove_tags@).dom().contains(k) ==> s2[k] == spec_remove_all(
            spec_apply_named(meta, s),
            meta.remove_tags@,
        )[k]),
        s2 == spec_remove_all(spec_apply_named(meta, s), meta.remove_tags@),
        !meta.remove_tags@.contains(k),
    ensures
        spec_apply_named(meta, s2).dom().contains(k) <==> spec_apply_named(meta, s).dom().contains(
            k,
        ),
        spec_apply_named(meta, s).dom().contains(k) ==> spec_apply_named(meta, s2)[k]
            == spec_apply_named(meta, s)[k],
{
    lemma_remove_all_get(spec_apply_named(meta, s), meta.remove_tags@, k);
}

} // verus!
