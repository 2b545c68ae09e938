//! The records that the workers receive and send.

use vstd::prelude::*;

verus! {

/// A profile as a request carries it. The email identifies it.
#[derive(Debug, PartialEq, Eq)]
pub struct Profile {
    pub name: String,
    pub email: String,
}

/// What a [`Profile`] holds, as mathematical text.
pub struct ProfileView {
    pub name: Seq<char>,
    pub email: Seq<char>,
}

impl View for Profile {
    type V = ProfileView;

    open spec fn view(&self) -> ProfileView {
        ProfileView { name: self.name@, email: self.email@ }
    }
}

impl Clone for Profile {
    fn clone(&self) -> (copy: Self)
        ensures
            copy@ == self@,
    {
        Profile { name: self.name.clone(), email: self.email.clone() }
    }
}

/// One generated service record.
#[derive(Debug, PartialEq, Eq)]
pub struct ServiceRecord {
    pub id: String,
    pub service_name: String,
    pub date: String,
    pub description: String,
}

/// What a [`ServiceRecord`] holds, as mathematical text.
pub struct ServiceRecordView {
    pub id: Seq<char>,
    pub service_name: Seq<char>,
    pub date: Seq<char>,
    pub description: Seq<char>,
}

impl View for ServiceRecord {
    type V = ServiceRecordView;

    open spec fn view(&self) -> ServiceRecordView {
        ServiceRecordView {
            id: self.id@,
            service_name: self.service_name@,
            date: self.date@,
            description: self.description@,
        }
    }
}

impl Clone for ServiceRecord {
    fn clone(&self) -> (copy: Self)
        ensures
            copy@ == self@,
    {
        ServiceRecord {
            id: self.id.clone(),
            service_name: self.service_name.clone(),
            date: self.date.clone(),
            description: self.description.clone(),
        }
    }
}

/// The views of a list of records, in order.
pub open spec fn record_views(records: Seq<ServiceRecord>) -> Seq<ServiceRecordView> {
    records.map_values(|r: ServiceRecord| r@)
}

/// Copies a list of records, one by one.
pub fn clone_records(records: &Vec<ServiceRecord>) -> (copy: Vec<ServiceRecord>)
    ensures
        record_views(copy@) == record_views(records@),
{
    let mut copy: Vec<ServiceRecord> = Vec::new();
    let mut i: usize = 0;
    while i < records.len()
        invariant
            i <= records.len(),
            copy.len() == i,
            forall|j: int| 0 <= j < i ==> copy[j]@ == records[j]@,
        decreases records.len() - i,
    {
        copy.push(records[i].clone());
        i = i + 1;
    }
    copy
}

/// The answer to a profile request: the profile's email paired with the
/// records generated for it.
#[derive(Debug, PartialEq, Eq)]
pub struct ServiceResponse {
    pub email: String,
    pub services: Vec<ServiceRecord>,
}

/// What a [`ServiceResponse`] holds.
pub struct ServiceResponseView {
    pub email: Seq<char>,
    pub services: Seq<ServiceRecordView>,
}

impl View for ServiceResponse {
    type V = ServiceResponseView;

    open spec fn view(&self) -> ServiceResponseView {
        ServiceResponseView { email: self.email@, services: record_views(self.services@) }
    }
}

/// A profile together with the records gathered for it.
#[derive(Debug, PartialEq, Eq)]
pub struct AggregatedData {
    pub profile: Profile,
    pub services: Vec<ServiceRecord>,
}

/// What an [`AggregatedData`] holds.
pub struct AggregatedDataView {
    pub profile: ProfileView,
    pub services: Seq<ServiceRecordView>,
}

impl View for AggregatedData {
    type V = AggregatedDataView;

    open spec fn view(&self) -> AggregatedDataView {
        AggregatedDataView { profile: self.profile@, services: record_views(self.services@) }
    }
}

impl Clone for AggregatedData {
    fn clone(&self) -> (copy: Self)
        ensures
            copy@ == self@,
    {
        AggregatedData { profile: self.profile.clone(), services: clone_records(&self.services) }
    }
}

/// A decoded request: a profile for the record-generation worker, an
/// aggregated record for the duplication worker.
#[derive(Debug, PartialEq, Eq)]
pub enum Request {
    Profile(Profile),
    Aggregated(AggregatedData),
}

/// What a [`Request`] holds.
pub enum RequestView {
    Profile(ProfileView),
    Aggregated(AggregatedDataView),
}

impl View for Request {
    type V = RequestView;

    open spec fn view(&self) -> RequestView {
        match self {
            Request::Profile(p) => RequestView::Profile(p@),
            Request::Aggregated(d) => RequestView::Aggregated(d@),
        }
    }
}

/// A record on its way out: the answer to a profile, or an aggregated
/// record sent on.
#[derive(Debug, PartialEq, Eq)]
pub enum Outbound {
    Services(ServiceResponse),
    Aggregated(AggregatedData),
}

/// What an [`Outbound`] holds.
pub enum OutboundView {
    Services(ServiceResponseView),
    Aggregated(AggregatedDataView),
}

impl View for Outbound {
    type V = OutboundView;

    open spec fn view(&self) -> OutboundView {
        match self {
            Outbound::Services(r) => OutboundView::Services(r@),
            Outbound::Aggregated(d) => OutboundView::Aggregated(d@),
        }
    }
}

/// The views of a list of outbound records, in order.
pub open spec fn outbound_views(items: Seq<Outbound>) -> Seq<OutboundView> {
    items.map_values(|o: Outbound| o@)
}

} // verus!
