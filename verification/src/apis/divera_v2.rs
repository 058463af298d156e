//! Alarms posted to the paging platform.
use vstd::prelude::*;
use crate::alarm::{receivers_of, Alarm, AlarmView};
use crate::apis::{append_location, location_suffix, Request, RequestView};

verus! {

/// A paging platform that alarms groups and vehicles.
#[derive(Debug)]
pub struct DiveraV2 {
    pub name: String,
    pub api_key: String,
}

/// What the platform is told of an alarm.
#[derive(Debug)]
pub struct DiveraAlarm {
    pub accesskey: String,
    pub foreign_id: String,
    pub title: String,
    pub text: String,
    pub address: String,
    pub group: Vec<String>,
    pub vehicle: Vec<String>,
}

/// The mathematical value of a [`DiveraAlarm`].
pub ghost struct DiveraAlarmView {
    pub accesskey: Seq<char>,
    pub foreign_id: Seq<char>,
    pub title: Seq<char>,
    pub text: Seq<char>,
    pub address: Seq<char>,
    pub group: Seq<Seq<char>>,
    pub vehicle: Seq<Seq<char>>,
}

impl DeepView for DiveraAlarm {
    type V = DiveraAlarmView;

    open spec fn deep_view(&self) -> DiveraAlarmView {
        DiveraAlarmView {
            accesskey: self.accesskey@,
            foreign_id: self.foreign_id@,
            title: self.title@,
            text: self.text@,
            address: self.address@,
            group: self.group.deep_view(),
            vehicle: self.vehicle.deep_view(),
        }
    }
}

/// What the platform with the name `name` and the key `api_key` is told of
/// `alarm`: its text followed by the place, its street as the address, and the
/// groups and vehicles resolved for the platform.
pub open spec fn divera_alarm(name: Seq<char>, api_key: Seq<char>, alarm: AlarmView)
    -> DiveraAlarmView {
    DiveraAlarmView {
        accesskey: api_key,
        foreign_id: alarm.id,
        title: alarm.title,
        text: alarm.text + location_suffix(alarm.address),
        address: alarm.address.street,
        group: receivers_of(alarm, name).groups,
        vehicle: receivers_of(alarm, name).vehicles,
    }
}

impl DiveraV2 {
    /// What is sent for a first alarm: one posted alarm.
    pub fn trigger_alarm(&self, alarm: &Alarm) -> (requests: Vec<Request>)
        ensures
            requests.deep_view() == seq![
                RequestView::Divera(divera_alarm(self.name@, self.api_key@, alarm@)),
            ],
    {
        let receivers = alarm.get_receivers(self.name.as_str());
        let mut text = alarm.text.clone();
        append_location(&mut text, &alarm.address);
        let posted = DiveraAlarm {
            accesskey: self.api_key.clone(),
            foreign_id: alarm.id.clone(),
            title: alarm.title.clone(),
            text,
            address: alarm.address.street.clone(),
            group: receivers.groups,
            vehicle: receivers.vehicles,
        };
        let mut requests: Vec<Request> = Vec::new();
        requests.push(Request::Divera(posted));
        assert(requests.deep_view() =~= seq![
            RequestView::Divera(divera_alarm(self.name@, self.api_key@, alarm@)),
        ]);
        requests
    }

    /// What is sent for an update: nothing.
    pub fn update_alarm(&self, _alarm: &Alarm) -> (requests: Vec<Request>)
        ensures
            requests.deep_view() == Seq::<RequestView>::empty(),
    {
        let requests: Vec<Request> = Vec::new();
        assert(requests.deep_view() =~= Seq::<RequestView>::empty());
        requests
    }
}

} // verus!
