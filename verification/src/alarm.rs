//! The canonical alarm record and the operations that fill it.
use vstd::prelude::*;
use vstd::string::StringExecFns;
use crate::config::alarm_templates::{AlarmTemplateReceiver, TemplateReceiverView};
use crate::name_map::{first_index, is_first_at, lemma_first_index, NameMap};
use crate::text::{clone_names, extend_names, no_names};

verus! {

/// A position in decimal degrees, each part as it is written in text. A map
/// link is made only when both parts are present.
#[derive(Debug, Clone)]
pub struct Coordinates {
    pub lat: Option<String>,
    pub lon: Option<String>,
}

/// The mathematical value of [`Coordinates`].
pub ghost struct CoordinatesView {
    pub lat: Option<Seq<char>>,
    pub lon: Option<Seq<char>>,
}

impl DeepView for Coordinates {
    type V = CoordinatesView;

    open spec fn deep_view(&self) -> CoordinatesView {
        CoordinatesView { lat: self.lat.deep_view(), lon: self.lon.deep_view() }
    }
}

/// Where the incident is.
#[derive(Debug, Clone)]
pub struct Address {
    pub street: String,
    pub city: String,
    pub object: String,
    pub object_id: String,
    pub info: String,
    pub utm: String,
    pub coords: Coordinates,
}

/// The mathematical value of an [`Address`].
pub ghost struct AddressView {
    pub street: Seq<char>,
    pub city: Seq<char>,
    pub object: Seq<char>,
    pub object_id: Seq<char>,
    pub info: Seq<char>,
    pub utm: Seq<char>,
    pub coords: CoordinatesView,
}

impl DeepView for Address {
    type V = AddressView;

    open spec fn deep_view(&self) -> AddressView {
        AddressView {
            street: self.street@,
            city: self.city@,
            object: self.object@,
            object_id: self.object_id@,
            info: self.info@,
            utm: self.utm@,
            coords: self.coords.deep_view(),
        }
    }
}

/// The address with every text empty and no position.
pub open spec fn empty_address() -> AddressView {
    AddressView {
        street: Seq::empty(),
        city: Seq::empty(),
        object: Seq::empty(),
        object_id: Seq::empty(),
        info: Seq::empty(),
        utm: Seq::empty(),
        coords: CoordinatesView { lat: None, lon: None },
    }
}

impl Address {
    /// An address of which nothing is known.
    pub fn new() -> (a: Self)
        ensures
            a.deep_view() == empty_address(),
    {
        Address {
            street: String::new(),
            city: String::new(),
            object: String::new(),
            object_id: String::new(),
            info: String::new(),
            utm: String::new(),
            coords: Coordinates { lat: None, lon: None },
        }
    }

    /// Sets the street.
    pub fn set_street(&mut self, street: String)
        ensures
            final(self).deep_view() == (AddressView { street: street@, ..old(self).deep_view() }),
    {
        self.street = street;
    }

    /// Sets the city.
    pub fn set_city(&mut self, city: String)
        ensures
            final(self).deep_view() == (AddressView { city: city@, ..old(self).deep_view() }),
    {
        self.city = city;
    }

    /// Sets the object, such as a building.
    pub fn set_object(&mut self, object: String)
        ensures
            final(self).deep_view() == (AddressView { object: object@, ..old(self).deep_view() }),
    {
        self.object = object;
    }

    /// Sets the number of the object.
    pub fn set_object_id(&mut self, object_id: String)
        ensures
            final(self).deep_view() == (AddressView {
                object_id: object_id@,
                ..old(self).deep_view()
            }),
    {
        self.object_id = object_id;
    }

    /// Sets the remark on the place.
    pub fn set_info(&mut self, info: String)
        ensures
            final(self).deep_view() == (AddressView { info: info@, ..old(self).deep_view() }),
    {
        self.info = info;
    }

    /// Sets the UTM reference.
    pub fn set_utm(&mut self, utm: String)
        ensures
            final(self).deep_view() == (AddressView { utm: utm@, ..old(self).deep_view() }),
    {
        self.utm = utm;
    }

    /// Sets the position.
    pub fn set_coords(&mut self, coords: Coordinates)
        ensures
            final(self).deep_view() == (AddressView {
                coords: coords.deep_view(),
                ..old(self).deep_view()
            }),
    {
        self.coords = coords;
    }
}

/// The receivers of one target: names that the notifier resolves.
#[derive(Debug)]
pub struct AlarmReceiver {
    pub groups: Vec<String>,
    pub vehicles: Vec<String>,
    pub members: Vec<String>,
}

/// The mathematical value of an [`AlarmReceiver`].
pub ghost struct AlarmReceiverView {
    pub groups: Seq<Seq<char>>,
    pub vehicles: Seq<Seq<char>>,
    pub members: Seq<Seq<char>>,
}

impl DeepView for AlarmReceiver {
    type V = AlarmReceiverView;

    open spec fn deep_view(&self) -> AlarmReceiverView {
        AlarmReceiverView {
            groups: self.groups.deep_view(),
            vehicles: self.vehicles.deep_view(),
            members: self.members.deep_view(),
        }
    }
}

impl Clone for AlarmReceiver {
    fn clone(&self) -> (out: Self)
        ensures
            out.deep_view() == self.deep_view(),
    {
        AlarmReceiver {
            groups: clone_names(&self.groups),
            vehicles: clone_names(&self.vehicles),
            members: clone_names(&self.members),
        }
    }
}

/// The receivers of a target that no template has spoken of.
pub open spec fn no_receivers() -> AlarmReceiverView {
    AlarmReceiverView { groups: Seq::empty(), vehicles: Seq::empty(), members: Seq::empty() }
}

/// What the mail that raised the alarm said of itself.
#[derive(Debug, Clone)]
pub struct MailData {
    pub id: String,
    pub sender: String,
    pub subject: String,
    pub content: String,
    pub date: u64,
}

/// The mathematical value of [`MailData`].
pub ghost struct MailDataView {
    pub id: Seq<char>,
    pub sender: Seq<char>,
    pub subject: Seq<char>,
    pub content: Seq<char>,
    pub date: u64,
}

impl DeepView for MailData {
    type V = MailDataView;

    open spec fn deep_view(&self) -> MailDataView {
        MailDataView {
            id: self.id@,
            sender: self.sender@,
            subject: self.subject@,
            content: self.content@,
            date: self.date,
        }
    }
}

/// The first three lines of the pager frame that raised the alarm.
#[derive(Debug, Clone)]
pub struct DmeData {
    pub date: String,
    pub ric: String,
    pub content: String,
}

/// The mathematical value of [`DmeData`].
pub ghost struct DmeDataView {
    pub date: Seq<char>,
    pub ric: Seq<char>,
    pub content: Seq<char>,
}

impl DeepView for DmeData {
    type V = DmeDataView;

    open spec fn deep_view(&self) -> DmeDataView {
        DmeDataView { date: self.date@, ric: self.ric@, content: self.content@ }
    }
}

/// One incident as every source reports it. `time` counts nanoseconds on a
/// clock that never runs backwards.
#[derive(Debug, Clone)]
pub struct Alarm {
    pub id: String,
    pub origin: String,
    pub title: String,
    pub text: String,
    pub time: u64,
    pub address: Address,
    pub units: Vec<String>,
    pub receiver: NameMap<AlarmReceiver>,
    pub template_names: Vec<String>,
    pub groups: Vec<String>,
    pub vehicles: Vec<String>,
    pub members: Vec<String>,
    pub webhooks: Vec<String>,
    pub alarm_sources: Vec<String>,
    pub mail_data: MailData,
    pub dme_data: DmeData,
}

/// The mathematical value of an [`Alarm`]. `targets` and `receivers` are the
/// names of the receiver map in order and the receivers at the same positions.
pub ghost struct AlarmView {
    pub id: Seq<char>,
    pub origin: Seq<char>,
    pub title: Seq<char>,
    pub text: Seq<char>,
    pub time: u64,
    pub address: AddressView,
    pub units: Seq<Seq<char>>,
    pub targets: Seq<Seq<char>>,
    pub receivers: Seq<AlarmReceiverView>,
    pub template_names: Seq<Seq<char>>,
    pub groups: Seq<Seq<char>>,
    pub vehicles: Seq<Seq<char>>,
    pub members: Seq<Seq<char>>,
    pub webhooks: Seq<Seq<char>>,
    pub alarm_sources: Seq<Seq<char>>,
    pub mail_data: MailDataView,
    pub dme_data: DmeDataView,
}

impl DeepView for Alarm {
    type V = AlarmView;

    open spec fn deep_view(&self) -> AlarmView {
        AlarmView {
            id: self.id@,
            origin: self.origin@,
            title: self.title@,
            text: self.text@,
            time: self.time,
            address: self.address.deep_view(),
            units: self.units.deep_view(),
            targets: self.receiver.names(),
            receivers: self.receiver.values(),
            template_names: self.template_names.deep_view(),
            groups: self.groups.deep_view(),
            vehicles: self.vehicles.deep_view(),
            members: self.members.deep_view(),
            webhooks: self.webhooks.deep_view(),
            alarm_sources: self.alarm_sources.deep_view(),
            mail_data: self.mail_data.deep_view(),
            dme_data: self.dme_data.deep_view(),
        }
    }
}

impl View for Alarm {
    type V = AlarmView;

    open spec fn view(&self) -> AlarmView {
        self.deep_view()
    }
}

/// The alarm raised at `time` of which nothing else is known yet.
pub open spec fn empty_alarm(time: u64) -> AlarmView {
    AlarmView {
        id: Seq::empty(),
        origin: Seq::empty(),
        title: Seq::empty(),
        text: Seq::empty(),
        time,
        address: empty_address(),
        units: Seq::empty(),
        targets: Seq::empty(),
        receivers: Seq::empty(),
        template_names: Seq::empty(),
        groups: Seq::empty(),
        vehicles: Seq::empty(),
        members: Seq::empty(),
        webhooks: Seq::empty(),
        alarm_sources: Seq::empty(),
        mail_data: MailDataView {
            id: Seq::empty(),
            sender: Seq::empty(),
            subject: Seq::empty(),
            content: Seq::empty(),
            date: 0,
        },
        dme_data: DmeDataView { date: Seq::empty(), ric: Seq::empty(), content: Seq::empty() },
    }
}

/// The receivers that `target` has in `alarm`: those at the first position of
/// its name, or none.
pub open spec fn receivers_of(alarm: AlarmView, target: Seq<char>) -> AlarmReceiverView {
    if alarm.targets.contains(target) {
        alarm.receivers[first_index(alarm.targets, target)]
    } else {
        no_receivers()
    }
}

/// The receivers `current` after a template's entry: each field that the
/// entry defines replaces the field, each other field stays.
pub open spec fn merged_receivers(
    current: AlarmReceiverView,
    members: Option<Seq<Seq<char>>>,
    groups: Option<Seq<Seq<char>>>,
    vehicles: Option<Seq<Seq<char>>>,
) -> AlarmReceiverView {
    AlarmReceiverView {
        groups: match groups {
            Some(g) => g,
            None => current.groups,
        },
        vehicles: match vehicles {
            Some(v) => v,
            None => current.vehicles,
        },
        members: match members {
            Some(m) => m,
            None => current.members,
        },
    }
}

/// The alarm after one entry of a template was applied for `target`.
/// Receivers are replaced field by field; webhook addresses are appended.
pub open spec fn with_template(
    alarm: AlarmView,
    target: Seq<char>,
    entry: TemplateReceiverView,
) -> AlarmView {
    match entry {
        TemplateReceiverView::Api { members, groups, vehicles } => {
            let merged = merged_receivers(receivers_of(alarm, target), members, groups, vehicles);
            if alarm.targets.contains(target) {
                AlarmView {
                    receivers: alarm.receivers.update(
                        first_index(alarm.targets, target),
                        merged,
                    ),
                    ..alarm
                }
            } else {
                AlarmView {
                    targets: alarm.targets.push(target),
                    receivers: alarm.receivers.push(merged),
                    ..alarm
                }
            }
        },
        TemplateReceiverView::Webhooks(urls) => AlarmView {
            webhooks: alarm.webhooks + urls,
            ..alarm
        },
    }
}

impl AlarmView {
    /// Every target has its receivers.
    pub open spec fn valid(self) -> bool {
        self.targets.len() == self.receivers.len()
    }
}

/// After an entry with receivers was applied for `target`, the target has
/// its former receivers with each defined field replaced.
pub proof fn lemma_receivers_after_template(
    alarm: AlarmView,
    target: Seq<char>,
    members: Option<Seq<Seq<char>>>,
    groups: Option<Seq<Seq<char>>>,
    vehicles: Option<Seq<Seq<char>>>,
)
    requires
        alarm.valid(),
    ensures
        with_template(
            alarm,
            target,
            TemplateReceiverView::Api { members, groups, vehicles },
        ).valid(),
        receivers_of(
            with_template(alarm, target, TemplateReceiverView::Api { members, groups, vehicles }),
            target,
        ) == merged_receivers(receivers_of(alarm, target), members, groups, vehicles),
{
    let after = with_template(
        alarm,
        target,
        TemplateReceiverView::Api { members, groups, vehicles },
    );
    if alarm.targets.contains(target) {
        lemma_first_index(alarm.targets, target);
    } else {
        let n = alarm.targets.len() as int;
        assert(after.targets[n] == target);
        assert(is_first_at(after.targets, target, n));
        lemma_first_index(after.targets, target);
    }
}

/// Receivers are decided by the last template that defines the field: after
/// two entries for one target, each of members, groups and vehicles is what
/// the second entry defines, else what the first defines, else what it was.
pub proof fn lemma_last_defined_field_wins(
    alarm: AlarmView,
    target: Seq<char>,
    first: TemplateReceiverView,
    second: TemplateReceiverView,
)
    requires
        alarm.valid(),
        first is Api,
        second is Api,
    ensures
        ({
            let after = receivers_of(
                with_template(with_template(alarm, target, first), target, second),
                target,
            );
            let before = receivers_of(alarm, target);
            &&& after.members == match (second->members, first->members) {
                (Some(m), _) => m,
                (None, Some(m)) => m,
                (None, None) => before.members,
            }
            &&& after.groups == match (second->groups, first->groups) {
                (Some(g), _) => g,
                (None, Some(g)) => g,
                (None, None) => before.groups,
            }
            &&& after.vehicles == match (second->vehicles, first->vehicles) {
                (Some(v), _) => v,
                (None, Some(v)) => v,
                (None, None) => before.vehicles,
            }
        }),
{
    lemma_receivers_after_template(
        alarm,
        target,
        first->members,
        first->groups,
        first->vehicles,
    );
    lemma_receivers_after_template(
        with_template(alarm, target, first),
        target,
        second->members,
        second->groups,
        second->vehicles,
    );
}

/// Webhook addresses pile up: after two webhook entries, for whatever
/// targets, the alarm holds its former addresses, then those of the first
/// entry, then those of the second, duplicates included, and its receivers
/// are untouched.
pub proof fn lemma_webhooks_accumulate(
    alarm: AlarmView,
    first_target: Seq<char>,
    first: Seq<Seq<char>>,
    second_target: Seq<char>,
    second: Seq<Seq<char>>,
)
    ensures
        with_template(
            with_template(alarm, first_target, TemplateReceiverView::Webhooks(first)),
            second_target,
            TemplateReceiverView::Webhooks(second),
        ) == (AlarmView { webhooks: alarm.webhooks + first + second, ..alarm }),
{
}

/// An entry with receivers leaves the webhook addresses as they were.
pub proof fn lemma_receivers_keep_webhooks(
    alarm: AlarmView,
    target: Seq<char>,
    entry: TemplateReceiverView,
)
    requires
        entry is Api,
    ensures
        with_template(alarm, target, entry).webhooks == alarm.webhooks,
{
}

impl Alarm {
    /// The value of every alarm is valid.
    pub proof fn lemma_valid(&self)
        ensures
            self@.valid(),
    {
        self.receiver.lemma_same_len();
    }

    /// A fresh alarm raised at `time`.
    pub fn new(time: u64) -> (a: Self)
        ensures
            a@ == empty_alarm(time),
            a.receiver.wf(),
    {
        Alarm {
            id: String::new(),
            origin: String::new(),
            title: String::new(),
            text: String::new(),
            time,
            address: Address::new(),
            units: no_names(),
            receiver: NameMap::new(),
            template_names: no_names(),
            groups: no_names(),
            vehicles: no_names(),
            members: no_names(),
            webhooks: no_names(),
            alarm_sources: no_names(),
            mail_data: MailData {
                id: String::new(),
                sender: String::new(),
                subject: String::new(),
                content: String::new(),
                date: 0,
            },
            dme_data: DmeData { date: String::new(), ric: String::new(), content: String::new() },
        }
    }

    /// Sets the identifier.
    pub fn set_id(&mut self, id: String)
        ensures
            final(self)@ == (AlarmView { id: id@, ..old(self)@ }),
            final(self).receiver == old(self).receiver,
    {
        self.id = id;
    }

    /// Sets the name of the source.
    pub fn set_origin(&mut self, origin: String)
        ensures
            final(self)@ == (AlarmView { origin: origin@, ..old(self)@ }),
            final(self).receiver == old(self).receiver,
    {
        self.origin = origin;
    }

    /// Sets the title.
    pub fn set_title(&mut self, title: String)
        ensures
            final(self)@ == (AlarmView { title: title@, ..old(self)@ }),
            final(self).receiver == old(self).receiver,
    {
        self.title = title;
    }

    /// Sets the text.
    pub fn set_text(&mut self, text: String)
        ensures
            final(self)@ == (AlarmView { text: text@, ..old(self)@ }),
            final(self).receiver == old(self).receiver,
    {
        self.text = text;
    }

    /// Appends to the text.
    pub fn add_to_text(&mut self, text: String)
        ensures
            final(self)@ == (AlarmView { text: old(self)@.text + text@, ..old(self)@ }),
            final(self).receiver == old(self).receiver,
    {
        self.text.append(text.as_str());
    }

    /// Sets the moment at which the alarm was raised.
    pub fn set_time(&mut self, time: u64)
        ensures
            final(self)@ == (AlarmView { time: time, ..old(self)@ }),
            final(self).receiver == old(self).receiver,
    {
        self.time = time;
    }

    /// Sets the address.
    pub fn set_address(&mut self, address: Address)
        ensures
            final(self)@ == (AlarmView { address: address.deep_view(), ..old(self)@ }),
            final(self).receiver == old(self).receiver,
    {
        self.address = address;
    }

    /// Sets the units.
    pub fn set_units(&mut self, units: Vec<String>)
        ensures
            final(self)@ == (AlarmView { units: units.deep_view(), ..old(self)@ }),
            final(self).receiver == old(self).receiver,
    {
        self.units = units;
    }

    /// Adds a unit at the end.
    pub fn add_unit(&mut self, unit: String)
        ensures
            final(self)@ == (AlarmView { units: old(self)@.units.push(unit@), ..old(self)@ }),
            final(self).receiver == old(self).receiver,
    {
        self.units.push(unit);
        assert(self.units.deep_view() =~= old(self).units.deep_view().push(unit@));
    }

    /// Sets the groups.
    pub fn set_groups(&mut self, groups: Vec<String>)
        ensures
            final(self)@ == (AlarmView { groups: groups.deep_view(), ..old(self)@ }),
            final(self).receiver == old(self).receiver,
    {
        self.groups = groups;
    }

    /// Sets the vehicles.
    pub fn set_vehicles(&mut self, vehicles: Vec<String>)
        ensures
            final(self)@ == (AlarmView { vehicles: vehicles.deep_view(), ..old(self)@ }),
            final(self).receiver == old(self).receiver,
    {
        self.vehicles = vehicles;
    }

    /// Sets the members.
    pub fn set_members(&mut self, members: Vec<String>)
        ensures
            final(self)@ == (AlarmView { members: members.deep_view(), ..old(self)@ }),
            final(self).receiver == old(self).receiver,
    {
        self.members = members;
    }

    /// Sets the webhook addresses.
    pub fn set_webhooks(&mut self, webhooks: Vec<String>)
        ensures
            final(self)@ == (AlarmView { webhooks: webhooks.deep_view(), ..old(self)@ }),
            final(self).receiver == old(self).receiver,
    {
        self.webhooks = webhooks;
    }

    /// Adds the name of a source that reported the incident.
    pub fn alarm_source(&mut self, alarm_source: String)
        ensures
            final(self)@ == (AlarmView {
                alarm_sources: old(self)@.alarm_sources.push(alarm_source@),
                ..old(self)@
            }),
            final(self).receiver == old(self).receiver,
    {
        self.alarm_sources.push(alarm_source);
        assert(self.alarm_sources.deep_view() =~= old(self).alarm_sources.deep_view().push(
            alarm_source@,
        ));
    }

    /// Sets what the mail said of itself.
    pub fn set_mail_data(&mut self, mail_data: MailData)
        ensures
            final(self)@ == (AlarmView { mail_data: mail_data.deep_view(), ..old(self)@ }),
            final(self).receiver == old(self).receiver,
    {
        self.mail_data = mail_data;
    }

    /// Sets the lines of the pager frame.
    pub fn set_dme_data(&mut self, dme_data: DmeData)
        ensures
            final(self)@ == (AlarmView { dme_data: dme_data.deep_view(), ..old(self)@ }),
            final(self).receiver == old(self).receiver,
    {
        self.dme_data = dme_data;
    }

    /// Names a template to be applied to the alarm, after those named before.
    pub fn add_template_name(&mut self, name: String)
        ensures
            final(self)@ == (AlarmView {
                template_names: old(self)@.template_names.push(name@),
                ..old(self)@
            }),
            final(self).receiver == old(self).receiver,
    {
        self.template_names.push(name);
        assert(self.template_names.deep_view() =~= old(self).template_names.deep_view().push(
            name@,
        ));
    }

    /// The receivers resolved for `target`; none where no template named it.
    pub fn get_receivers(&self, target: &str) -> (r: AlarmReceiver)
        ensures
            r.deep_view() == receivers_of(self@, target@),
    {
        match self.receiver.position(target) {
            Some(i) => {
                proof {
                    lemma_first_index(self.receiver.names(), target@);
                }
                self.receiver.value_at(i).clone()
            },
            None => AlarmReceiver { groups: no_names(), vehicles: no_names(), members: no_names() },
        }
    }

    /// Applies one entry of a template for `target`.
    pub fn apply_template(&mut self, target: String, template_receiver: AlarmTemplateReceiver)
        ensures
            final(self)@ == with_template(old(self)@, target@, template_receiver.deep_view()),
            old(self).receiver.wf() ==> final(self).receiver.wf(),
    {
        match template_receiver {
            AlarmTemplateReceiver::Api { members, groups, vehicles } => {
                let mut receiver = self.get_receivers(target.as_str());
                if let Some(members) = members {
                    receiver.members = members;
                }
                if let Some(groups) = groups {
                    receiver.groups = groups;
                }
                if let Some(vehicles) = vehicles {
                    receiver.vehicles = vehicles;
                }
                self.receiver.insert(target, receiver);
            },
            AlarmTemplateReceiver::Webhooks(webhooks) => {
                extend_names(&mut self.webhooks, &webhooks);
            },
        }
    }
}

} // verus!
