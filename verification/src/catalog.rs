//! The container catalogue: what the daemon reports of each container,
//! enriched with the service the container belongs to.
//!
//! The catalogue keeps the daemon's order and holds no state: the listing is
//! a function of the daemon's answer alone.

use vstd::prelude::*;
use vstd::string::StrSliceExecFns;
use vstd::seq_lib::{to_multiset_build, to_multiset_contains, to_multiset_insert, to_multiset_len, to_multiset_remove};
use crate::text::same_text;

verus! {

/// The orchestration label that names the project a container belongs to.
pub const PROJECT_LABEL: &'static str = "com.docker.compose.project";

/// The service of a container that carries no project label.
pub const UNKNOWN_SERVICE: &'static str = "Unknown";

/// How many characters of an identifier the compact display form keeps.
pub const SHORT_ID_LENGTH: usize = 12;

/// One label of a container.
#[derive(Clone, Debug)]
pub struct Label {
    pub key: String,
    pub value: String,
}

/// A label as a pair of texts.
pub struct LabelView {
    pub key: Seq<char>,
    pub value: Seq<char>,
}

impl View for Label {
    type V = LabelView;

    open spec fn view(&self) -> LabelView {
        LabelView { key: self.key@, value: self.value@ }
    }
}

/// One container as the daemon reports it. `labels` is empty where the daemon
/// reports no label map.
#[derive(Clone, Debug)]
pub struct RawContainer {
    pub id: String,
    pub names: Vec<String>,
    pub image: String,
    pub status: String,
    pub created: i64,
    pub labels: Vec<Label>,
}

/// A reported container as plain values.
pub struct RawContainerView {
    pub id: Seq<char>,
    pub names: Seq<Seq<char>>,
    pub image: Seq<char>,
    pub status: Seq<char>,
    pub created: i64,
    pub labels: Seq<LabelView>,
}

/// The texts held by a sequence of strings.
pub open spec fn spec_texts(items: Seq<String>) -> Seq<Seq<char>> {
    items.map_values(|s: String| s@)
}

/// The labels held by a sequence of labels.
pub open spec fn spec_labels(items: Seq<Label>) -> Seq<LabelView> {
    items.map_values(|l: Label| l@)
}

impl View for RawContainer {
    type V = RawContainerView;

    open spec fn view(&self) -> RawContainerView {
        RawContainerView {
            id: self.id@,
            names: spec_texts(self.names@),
            image: self.image@,
            status: self.status@,
            created: self.created,
            labels: spec_labels(self.labels@),
        }
    }
}

/// One container as the catalogue lists it.
#[derive(Clone, Debug)]
pub struct ContainerRecord {
    pub id: String,
    pub names: Vec<String>,
    pub image: String,
    pub status: String,
    pub created: i64,
    pub service: String,
}

/// A listed container as plain values.
pub struct ContainerRecordView {
    pub id: Seq<char>,
    pub names: Seq<Seq<char>>,
    pub image: Seq<char>,
    pub status: Seq<char>,
    pub created: i64,
    pub service: Seq<char>,
}

impl View for ContainerRecord {
    type V = ContainerRecordView;

    open spec fn view(&self) -> ContainerRecordView {
        ContainerRecordView {
            id: self.id@,
            names: spec_texts(self.names@),
            image: self.image@,
            status: self.status@,
            created: self.created,
            service: self.service@,
        }
    }
}

/// The value of the first label with the given key, if there is one.
pub open spec fn spec_lookup(labels: Seq<LabelView>, key: Seq<char>) -> Option<Seq<char>>
    decreases labels.len(),
{
    if labels.len() == 0 {
        None
    } else if labels[0].key == key {
        Some(labels[0].value)
    } else {
        spec_lookup(labels.drop_first(), key)
    }
}

/// The service of a container with the given labels: the value of its
/// project label, or the sentinel where it has none.
pub open spec fn spec_service_label(labels: Seq<LabelView>) -> Seq<char> {
    match spec_lookup(labels, PROJECT_LABEL@) {
        Some(value) => value,
        None => UNKNOWN_SERVICE@,
    }
}

/// The listed form of a reported container.
pub open spec fn spec_enrich(raw: RawContainerView) -> ContainerRecordView {
    ContainerRecordView {
        id: raw.id,
        names: raw.names,
        image: raw.image,
        status: raw.status,
        created: raw.created,
        service: spec_service_label(raw.labels),
    }
}

/// The listing of the daemon's answer: each container enriched, in the
/// daemon's order.
pub open spec fn spec_catalogue(raws: Seq<RawContainerView>) -> Seq<ContainerRecordView> {
    raws.map_values(|raw: RawContainerView| spec_enrich(raw))
}

/// The compact display form of an identifier: its first twelve characters,
/// or all of it where it is shorter.
pub open spec fn spec_short_id(id: Seq<char>) -> Seq<char> {
    if id.len() <= SHORT_ID_LENGTH {
        id
    } else {
        id.subrange(0, SHORT_ID_LENGTH as int)
    }
}

/// The value of the first label with the given key, if there is one.
pub fn lookup(labels: &Vec<Label>, key: &str) -> (found: Option<String>)
    ensures
        match found {
            Some(value) => spec_lookup(spec_labels(labels@), key@) == Some(value@),
            None => spec_lookup(spec_labels(labels@), key@) is None,
        },
{
    let ghost all = spec_labels(labels@);
    let mut i: usize = 0;
    proof {
        assert(all.subrange(0, all.len() as int) =~= all);
    }
    while i < labels.len()
        invariant
            i <= labels.len(),
            all == spec_labels(labels@),
            spec_lookup(all, key@) == spec_lookup(all.subrange(i as int, all.len() as int), key@),
        decreases labels.len() - i,
    {
        let ghost rest = all.subrange(i as int, all.len() as int);
        assert(rest[0] == labels@[i as int]@);
        assert(rest.drop_first() =~= all.subrange(i + 1, all.len() as int));
        if same_text(labels[i].key.as_str(), key) {
            return Some(labels[i].value.clone());
        }
        i += 1;
    }
    proof {
        assert(all.subrange(i as int, all.len() as int).len() == 0);
    }
    None
}

/// The service of a container with the given labels.
pub fn service_label(labels: &Vec<Label>) -> (service: String)
    ensures
        service@ == spec_service_label(spec_labels(labels@)),
{
    match lookup(labels, PROJECT_LABEL) {
        Some(value) => value,
        None => UNKNOWN_SERVICE.to_owned(),
    }
}

/// A copy of a list of texts.
pub fn copy_texts(items: &Vec<String>) -> (copy: Vec<String>)
    ensures
        spec_texts(copy@) == spec_texts(items@),
{
    let mut copy: Vec<String> = Vec::new();
    let mut i: usize = 0;
    while i < items.len()
        invariant
            i <= items.len(),
            copy@.len() == i,
            forall|j: int| 0 <= j < i ==> copy@[j]@ == items@[j]@,
        decreases items.len() - i,
    {
        copy.push(items[i].clone());
        i += 1;
    }
    proof {
        assert(spec_texts(copy@) =~= spec_texts(items@));
    }
    copy
}

/// Lists one reported container: identifier, names, image, status and
/// creation time are copied unchanged, and the service is derived from the
/// labels.
pub fn enrich(raw: &RawContainer) -> (record: ContainerRecord)
    ensures
        record@ == spec_enrich(raw@),
{
    ContainerRecord {
        id: raw.id.clone(),
        names: copy_texts(&raw.names),
        image: raw.image.clone(),
        status: raw.status.clone(),
        created: raw.created,
        service: service_label(&raw.labels),
    }
}

/// The views of a sequence of reported containers.
pub open spec fn spec_raw_views(raws: Seq<RawContainer>) -> Seq<RawContainerView> {
    raws.map_values(|raw: RawContainer| raw@)
}

/// The views of a sequence of listed containers.
pub open spec fn spec_record_views(records: Seq<ContainerRecord>) -> Seq<ContainerRecordView> {
    records.map_values(|record: ContainerRecord| record@)
}

/// Lists every reported container, stopped ones included, in the order in
/// which the daemon reported them.
pub fn catalogue(raws: &Vec<RawContainer>) -> (records: Vec<ContainerRecord>)
    ensures
        spec_record_views(records@) == spec_catalogue(spec_raw_views(raws@)),
{
    let mut records: Vec<ContainerRecord> = Vec::new();
    let mut i: usize = 0;
    while i < raws.len()
        invariant
            i <= raws.len(),
            records@.len() == i,
            forall|j: int| 0 <= j < i ==> records@[j]@ == spec_enrich(raws@[j]@),
        decreases raws.len() - i,
    {
        records.push(enrich(&raws[i]));
        i += 1;
    }
    proof {
        assert(spec_record_views(records@) =~= spec_catalogue(spec_raw_views(raws@)));
    }
    records
}

/// The compact display form of an identifier.
pub fn short_id(id: &str) -> (short: String)
    ensures
        short@ == spec_short_id(id@),
{
    let n = id.unicode_len();
    if n <= SHORT_ID_LENGTH {
        id.to_owned()
    } else {
        id.substring_char(0, SHORT_ID_LENGTH).to_owned()
    }
}

/// The display form of a listed container: the identifier shortened, the
/// rest unchanged. The canonical identifier stays with the record it was
/// made from.
pub fn display_record(record: &ContainerRecord) -> (shown: ContainerRecord)
    ensures
        shown@ == (ContainerRecordView { id: spec_short_id(record@.id), ..record@ }),
{
    ContainerRecord {
        id: short_id(record.id.as_str()),
        names: copy_texts(&record.names),
        image: record.image.clone(),
        status: record.status.clone(),
        created: record.created,
        service: record.service.clone(),
    }
}

/// A key that no label carries is not found.
pub proof fn lemma_lookup_absent(labels: Seq<LabelView>, key: Seq<char>)
    requires
        forall|i: int| 0 <= i < labels.len() ==> labels[i].key != key,
    ensures
        spec_lookup(labels, key) is None,
    decreases labels.len(),
{
    if labels.len() > 0 {
        let rest = labels.drop_first();
        assert forall|i: int| 0 <= i < rest.len() implies rest[i].key != key by {
            assert(rest[i] == labels[i + 1]);
        }
        lemma_lookup_absent(rest, key);
    }
}

/// The first label that carries a key gives the value found for it.
pub proof fn lemma_lookup_first(labels: Seq<LabelView>, key: Seq<char>, at: int)
    requires
        0 <= at < labels.len(),
        labels[at].key == key,
        forall|i: int| 0 <= i < at ==> labels[i].key != key,
    ensures
        spec_lookup(labels, key) == Some(labels[at].value),
    decreases labels.len(),
{
    if at > 0 {
        let rest = labels.drop_first();
        assert(rest[at - 1] == labels[at]);
        assert forall|i: int| 0 <= i < at - 1 implies rest[i].key != key by {
            assert(rest[i] == labels[i + 1]);
        }
        lemma_lookup_first(rest, key, at - 1);
    }
}

/// A container that carries no project label is listed under the sentinel
/// service, exactly.
pub proof fn lemma_service_without_project_label(raw: RawContainerView)
    requires
        forall|i: int| 0 <= i < raw.labels.len() ==> raw.labels[i].key != PROJECT_LABEL@,
    ensures
        spec_enrich(raw).service == UNKNOWN_SERVICE@,
{
    lemma_lookup_absent(raw.labels, PROJECT_LABEL@);
}

/// A container that carries the project label is listed under that label's
/// value, unchanged. Where the label occurs more than once, the first
/// occurrence counts; in a label map it occurs once.
pub proof fn lemma_service_with_project_label(raw: RawContainerView, at: int)
    requires
        0 <= at < raw.labels.len(),
        raw.labels[at].key == PROJECT_LABEL@,
        forall|i: int| 0 <= i < at ==> raw.labels[i].key != PROJECT_LABEL@,
    ensures
        spec_enrich(raw).service == raw.labels[at].value,
{
    lemma_lookup_first(raw.labels, PROJECT_LABEL@, at);
}

/// Listing is repeatable: two answers of the daemon that hold the same
/// containers, in whatever order, give the same records, order aside.
pub proof fn lemma_listing_repeatable(first: Seq<RawContainerView>, second: Seq<RawContainerView>)
    requires
        first.to_multiset() == second.to_multiset(),
    ensures
        spec_catalogue(first).to_multiset() == spec_catalogue(second).to_multiset(),
        first == second ==> spec_catalogue(first) == spec_catalogue(second),
    decreases first.len(),
{
    to_multiset_len(first);
    to_multiset_len(second);
    if first.len() == 0 {
        assert(second.len() == 0);
        assert(spec_catalogue(first) =~= spec_catalogue(second));
    } else {
        let x = first.last();
        let first_rest = first.drop_last();
        assert(first =~= first_rest.push(x));
        assert(first[first.len() - 1] == x);
        assert(first.contains(x));
        to_multiset_contains(first, x);
        to_multiset_contains(second, x);
        assert(second.contains(x));
        let k = choose|k: int| 0 <= k < second.len() && second[k] == x;
        let second_rest = second.remove(k);
        to_multiset_remove(second, k);
        to_multiset_build(first_rest, x);
        assert(first_rest.to_multiset() =~= first.to_multiset().remove(x));
        lemma_listing_repeatable(first_rest, second_rest);
        assert(spec_catalogue(first) =~= spec_catalogue(first_rest).push(spec_enrich(x)));
        assert(spec_catalogue(second) =~= spec_catalogue(second_rest).insert(k, spec_enrich(x)));
        to_multiset_build(spec_catalogue(first_rest), spec_enrich(x));
        to_multiset_insert(spec_catalogue(second_rest), k, spec_enrich(x));
    }
}

/// The listing shows what the daemon last reported: a container whose
/// reported status differs between two answers is listed, under the same
/// identifier, with the status of each answer.
pub proof fn lemma_listing_reflects_status(
    before: Seq<RawContainerView>,
    after: Seq<RawContainerView>,
    i: int,
    j: int,
)
    requires
        0 <= i < before.len(),
        0 <= j < after.len(),
        before[i].id == after[j].id,
        before[i].status != after[j].status,
    ensures
        spec_catalogue(before)[i].id == spec_catalogue(after)[j].id,
        spec_catalogue(before)[i].status == before[i].status,
        spec_catalogue(after)[j].status == after[j].status,
        spec_catalogue(before)[i].status != spec_catalogue(after)[j].status,
{
}

} // verus!
