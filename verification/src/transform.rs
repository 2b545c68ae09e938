//! The two transformations: service records generated for a profile, and an
//! aggregated record sent on twice.

use crate::clock::{representable, rfc3339_text, second_days_before, utc_now, Timestamp};
use crate::ident::{is_identifier, random_identifiers};
use crate::payload::{
    record_views, AggregatedData, Profile, ProfileView, ServiceRecord, ServiceRecordView,
    ServiceResponse,
};
use crate::text::{decimal_string, decimal_text};
use rand::rngs::ThreadRng;
use vstd::prelude::*;
use vstd::string::*;

verus! {

/// The longest list that can be generated whatever the clock reads: the
/// number of days from the first dated instant up to the epoch, and one for
/// the day of the request.
pub const MAX_LIST_SIZE: usize = 96_465_293;

/// The number of copies that the duplication sends on.
pub const DUPLICATES: usize = 2;

/// The name of the record at `index` for a profile called `name`.
pub open spec fn service_name_text(name: Seq<char>, index: nat) -> Seq<char> {
    name + "_svc_"@ + decimal_text(index)
}

/// The description of the record at `index` for the profile with `email`.
pub open spec fn description_text(email: Seq<char>, index: nat) -> Seq<char> {
    "Service "@ + decimal_text(index) + " for "@ + email
}

/// The record at `index` of a list generated for `profile` at the instant
/// `base`, carrying the identifier `id`: its timestamp lies `index` whole
/// days before `base`.
pub open spec fn service_record_view(
    profile: ProfileView,
    index: nat,
    base: Timestamp,
    id: Seq<char>,
) -> ServiceRecordView {
    ServiceRecordView {
        id,
        service_name: service_name_text(profile.name, index),
        date: rfc3339_text(second_days_before(base.secs as int, index), base.nanos as int),
        description: description_text(profile.email, index),
    }
}

/// The views of a list of texts, in order.
pub open spec fn text_views(texts: Seq<String>) -> Seq<Seq<char>> {
    texts.map_values(|t: String| t@)
}

/// The list generated for `profile` at the instant `base` with the
/// identifiers `ids`: as many records as there are identifiers, the record
/// at each index built from the identifier at that index.
pub open spec fn batch_view(
    profile: ProfileView,
    base: Timestamp,
    ids: Seq<Seq<char>>,
) -> Seq<ServiceRecordView> {
    Seq::new(ids.len(), |i: int| service_record_view(profile, i as nat, base, ids[i]))
}

/// Whether each of the `count` days that end with the day of `base` has a
/// calendar date, so that every record of a list of that length can be
/// dated.
pub open spec fn datable(base: Timestamp, count: nat) -> bool {
    forall|days: nat|
        days < count ==> representable(
            #[trigger] second_days_before(base.secs as int, days),
            base.nanos as int,
        )
}

/// Whether `records` is a list of `count` records generated for `profile`
/// at the instant `base`: each follows the templates for its index and
/// carries some well-formed identifier.
pub open spec fn is_batch_at(
    records: Seq<ServiceRecordView>,
    profile: ProfileView,
    count: nat,
    base: Timestamp,
) -> bool {
    &&& records.len() == count
    &&& forall|i: int|
        0 <= i < count ==> {
            &&& is_identifier((#[trigger] records[i]).id)
            &&& records[i] == service_record_view(profile, i as nat, base, records[i].id)
        }
}

/// Whether `records` is a list of `count` records generated for `profile`
/// at some instant that the clock can show.
pub open spec fn is_generated_batch(
    records: Seq<ServiceRecordView>,
    profile: ProfileView,
    count: nat,
) -> bool {
    exists|base: Timestamp|
        base.is_valid() && base.secs >= 0 && #[trigger] is_batch_at(records, profile, count, base)
}

/// Writes the name of the record at `index`.
pub fn service_name(name: &str, index: usize) -> (text: String)
    ensures
        text@ == service_name_text(name@, index as nat),
{
    let mut text = String::from_str(name);
    text.append("_svc_");
    text.append(decimal_string(index).as_str());
    text
}

/// Writes the description of the record at `index`.
pub fn description(email: &str, index: usize) -> (text: String)
    ensures
        text@ == description_text(email@, index as nat),
{
    let mut text = String::from_str("Service ");
    text.append(decimal_string(index).as_str());
    text.append(" for ");
    text.append(email);
    text
}

/// Builds the record at `index` of a list generated for `profile` at the
/// instant `now`, with the identifier `id`.
pub fn service_record(profile: &Profile, index: usize, now: Timestamp, id: String) -> (record:
    ServiceRecord)
    requires
        representable(second_days_before(now.secs as int, index as nat), now.nanos as int),
    ensures
        record@ == service_record_view(profile@, index as nat, now, id@),
{
    let earlier = now.days_earlier(index).unwrap();
    let date = earlier.to_rfc3339().unwrap();
    ServiceRecord {
        id,
        service_name: service_name(profile.name.as_str(), index),
        date,
        description: description(profile.email.as_str(), index),
    }
}

/// Builds the list for `profile` from an instant and a list of
/// identifiers: one record for each identifier, in order.
pub fn build_services(profile: &Profile, now: Timestamp, ids: Vec<String>) -> (records: Vec<
    ServiceRecord,
>)
    requires
        datable(now, ids.len() as nat),
    ensures
        record_views(records@) == batch_view(profile@, now, text_views(ids@)),
{
    let ghost count = ids.len();
    let mut records: Vec<ServiceRecord> = Vec::new();
    let mut index: usize = 0;
    for id in it: ids
        invariant
            index == it.index(),
            records.len() == index,
            it.seq().len() == count,
            datable(now, count as nat),
            forall|i: int|
                0 <= i < index ==> (#[trigger] records[i])@ == service_record_view(
                    profile@,
                    i as nat,
                    now,
                    it.seq()[i]@,
                ),
    {
        records.push(service_record(profile, index, now, id));
        index = index + 1;
    }
    assert(record_views(records@) =~= batch_view(profile@, now, text_views(ids@)));
    records
}

/// Generates `count` records for `profile`: the clock is read once, and a
/// fresh identifier is drawn for each record.
pub fn generate_services(profile: &Profile, count: usize) -> (records: Vec<ServiceRecord>)
    requires
        count <= MAX_LIST_SIZE,
    ensures
        is_generated_batch(record_views(records@), profile@, count as nat),
{
    let mut rng: ThreadRng = rand::thread_rng();
    let now = utc_now();
    let ids = random_identifiers(&mut rng, count);
    let records = build_services(profile, now, ids);
    assert(is_batch_at(record_views(records@), profile@, count as nat, now));
    records
}

/// Answers a profile: its email, paired with `count` generated records.
pub fn respond(profile: &Profile, count: usize) -> (response: ServiceResponse)
    requires
        count <= MAX_LIST_SIZE,
    ensures
        response@.email == profile@.email,
        is_generated_batch(response@.services, profile@, count as nat),
{
    ServiceResponse { email: profile.email.clone(), services: generate_services(profile, count) }
}

/// Duplicates an aggregated record: two copies, each equal to the input
/// field for field.
pub fn duplicate(data: &AggregatedData) -> (copies: Vec<AggregatedData>)
    ensures
        copies.len() == DUPLICATES,
        forall|i: int| 0 <= i < copies.len() ==> copies[i]@ == data@,
{
    let mut copies: Vec<AggregatedData> = Vec::new();
    copies.push(data.clone());
    copies.push(data.clone());
    copies
}

} // verus!
