//! The notifiers: what each of them sends for an alarm.
pub mod divera_v2;
pub mod mock_api;
pub mod telegram;

use vstd::prelude::*;
use vstd::string::StringExecFns;
use crate::alarm::{receivers_of, Address, AddressView, Alarm, AlarmView};
use crate::alarm_handler::AlarmType;
use crate::apis::divera_v2::{divera_alarm, DiveraAlarm, DiveraAlarmView, DiveraV2};
use crate::apis::mock_api::MockApi;
use crate::apis::telegram::{message_text, send_message_url, Telegram};
use crate::config::general::{ApiConfig, ApiConfigView, ApiType};

verus! {

/// One request that a notifier wants sent.
#[derive(Debug)]
pub enum Request {
    /// A plain fetch of the address.
    Get(String),
    /// An alarm posted to the paging platform.
    Divera(DiveraAlarm),
}

/// The mathematical value of a [`Request`].
pub ghost enum RequestView {
    Get(Seq<char>),
    Divera(DiveraAlarmView),
}

impl DeepView for Request {
    type V = RequestView;

    open spec fn deep_view(&self) -> RequestView {
        match self {
            Request::Get(url) => RequestView::Get(url@),
            Request::Divera(alarm) => RequestView::Divera(alarm.deep_view()),
        }
    }
}

/// What a message says of the place of the incident, after the alarm's own
/// text: the object on a line of its own, the remark in brackets, the
/// object's number, the UTM reference, and, where both parts of the position
/// are known, the position and a map link.
pub open spec fn location_suffix(address: AddressView) -> Seq<char> {
    object_part(address) + info_part(address) + object_id_part(address) + utm_part(address)
        + position_part(address)
}

/// The object, on a line of its own.
pub open spec fn object_part(address: AddressView) -> Seq<char> {
    if address.object.len() > 0 {
        "\n"@ + address.object
    } else {
        Seq::empty()
    }
}

/// The remark on the place, in brackets.
pub open spec fn info_part(address: AddressView) -> Seq<char> {
    if address.info.len() > 0 {
        " ("@ + address.info + ")"@
    } else {
        Seq::empty()
    }
}

/// The number of the object.
pub open spec fn object_id_part(address: AddressView) -> Seq<char> {
    if address.object_id.len() > 0 {
        "Objekt-ID: "@ + address.object_id
    } else {
        Seq::empty()
    }
}

/// The UTM reference, after an empty line.
pub open spec fn utm_part(address: AddressView) -> Seq<char> {
    if address.utm.len() > 0 {
        "\n\nUTM: "@ + address.utm
    } else {
        Seq::empty()
    }
}

/// The position and a map link, where both parts of the position are known.
pub open spec fn position_part(address: AddressView) -> Seq<char> {
    match (address.coords.lat, address.coords.lon) {
        (Some(lat), Some(lon)) => "\n\nKoordinaten: "@ + lat + ", "@ + lon
            + "\n\nhttps://maps.apple.com/?q="@ + lat + ","@ + lon,
        _ => Seq::empty(),
    }
}

fn append_object(text: &mut String, address: &Address)
    ensures
        final(text)@ == old(text)@ + object_part(address.deep_view()),
{
    let ghost start = text@;
    if !address.object.as_str().is_empty() {
        text.append("\n");
        text.append(address.object.as_str());
        assert(text@ =~= start + ("\n"@ + address.object@));
    } else {
        assert(text@ =~= start + Seq::<char>::empty());
    }
}

fn append_info(text: &mut String, address: &Address)
    ensures
        final(text)@ == old(text)@ + info_part(address.deep_view()),
{
    let ghost start = text@;
    if !address.info.as_str().is_empty() {
        text.append(" (");
        text.append(address.info.as_str());
        text.append(")");
        assert(text@ =~= start + (" ("@ + address.info@ + ")"@));
    } else {
        assert(text@ =~= start + Seq::<char>::empty());
    }
}

fn append_object_id(text: &mut String, address: &Address)
    ensures
        final(text)@ == old(text)@ + object_id_part(address.deep_view()),
{
    let ghost start = text@;
    if !address.object_id.as_str().is_empty() {
        text.append("Objekt-ID: ");
        text.append(address.object_id.as_str());
        assert(text@ =~= start + ("Objekt-ID: "@ + address.object_id@));
    } else {
        assert(text@ =~= start + Seq::<char>::empty());
    }
}

fn append_utm(text: &mut String, address: &Address)
    ensures
        final(text)@ == old(text)@ + utm_part(address.deep_view()),
{
    let ghost start = text@;
    if !address.utm.as_str().is_empty() {
        text.append("\n\nUTM: ");
        text.append(address.utm.as_str());
        assert(text@ =~= start + ("\n\nUTM: "@ + address.utm@));
    } else {
        assert(text@ =~= start + Seq::<char>::empty());
    }
}

fn append_position(text: &mut String, address: &Address)
    ensures
        final(text)@ == old(text)@ + position_part(address.deep_view()),
{
    let ghost start = text@;
    match (&address.coords.lat, &address.coords.lon) {
        (Some(lat), Some(lon)) => {
            text.append("\n\nKoordinaten: ");
            text.append(lat.as_str());
            text.append(", ");
            text.append(lon.as_str());
            let ghost half = text@;
            assert(half =~= start + ("\n\nKoordinaten: "@ + lat@ + ", "@ + lon@));
            text.append("\n\nhttps://maps.apple.com/?q=");
            text.append(lat.as_str());
            text.append(",");
            text.append(lon.as_str());
            assert(text@ =~= half + ("\n\nhttps://maps.apple.com/?q="@ + lat@ + ","@ + lon@));
            assert(text@ =~= start + ("\n\nKoordinaten: "@ + lat@ + ", "@ + lon@
                + "\n\nhttps://maps.apple.com/?q="@ + lat@ + ","@ + lon@));
        },
        _ => {
            assert(text@ =~= start + Seq::<char>::empty());
        },
    }
}

/// Appends to `text` what a message says of the place of the incident.
pub fn append_location(text: &mut String, address: &Address)
    ensures
        final(text)@ == old(text)@ + location_suffix(address.deep_view()),
{
    let ghost start = text@;
    let ghost a = address.deep_view();
    append_object(text, address);
    append_info(text, address);
    assert(text@ =~= start + (object_part(a) + info_part(a)));
    append_object_id(text, address);
    assert(text@ =~= start + (object_part(a) + info_part(a) + object_id_part(a)));
    append_utm(text, address);
    assert(text@ =~= start + (object_part(a) + info_part(a) + object_id_part(a) + utm_part(a)));
    append_position(text, address);
    assert(text@ =~= start + location_suffix(a));
}

/// A notifier of one of the kinds that the configuration can name.
#[derive(Debug)]
pub enum Notifier {
    Divera(DiveraV2),
    Alamos(MockApi),
    Telegram(Telegram),
}

/// The mathematical value of a [`Notifier`]: its kind, its name and its
/// credential.
pub ghost struct NotifierView {
    pub api: ApiType,
    pub name: Seq<char>,
    pub key: Seq<char>,
}

impl DeepView for Notifier {
    type V = NotifierView;

    open spec fn deep_view(&self) -> NotifierView {
        match self {
            Notifier::Divera(n) => NotifierView { api: ApiType::Divera, name: n.name@, key: n.api_key@ },
            Notifier::Alamos(n) => NotifierView { api: ApiType::Alamos, name: n.name@, key: n.api_key@ },
            Notifier::Telegram(n) => NotifierView {
                api: ApiType::Telegram,
                name: n.name@,
                key: n.bot_token@,
            },
        }
    }
}

/// The notifier that a configuration entry describes.
pub open spec fn notifier_of(config: ApiConfigView) -> NotifierView {
    NotifierView { api: config.api, name: config.name, key: config.api_key }
}

/// What a notifier sends for a first alarm.
pub open spec fn trigger_requests(notifier: NotifierView, alarm: AlarmView) -> Seq<RequestView> {
    match notifier.api {
        ApiType::Divera => seq![
            RequestView::Divera(divera_alarm(notifier.name, notifier.key, alarm)),
        ],
        ApiType::Alamos => Seq::empty(),
        ApiType::Telegram => Seq::new(
            receivers_of(alarm, notifier.name).members.len(),
            |i: int|
                RequestView::Get(
                    send_message_url(
                        notifier.key,
                        receivers_of(alarm, notifier.name).members[i],
                        message_text(alarm),
                    ),
                ),
        ),
    }
}

/// What a notifier sends for an alarm of the given class: for a first alarm
/// what its trigger sends, otherwise nothing.
pub open spec fn notifier_requests(notifier: NotifierView, kind: AlarmType, alarm: AlarmView)
    -> Seq<RequestView> {
    match kind {
        AlarmType::FirstAlarm => trigger_requests(notifier, alarm),
        _ => Seq::empty(),
    }
}

impl Notifier {
    /// The notifier that `config` describes.
    pub fn from_config(config: &ApiConfig) -> (notifier: Notifier)
        ensures
            notifier.deep_view() == notifier_of(config.deep_view()),
    {
        let name = config.name.clone();
        let api_key = config.api_key.clone();
        match config.api {
            ApiType::Divera => Notifier::Divera(DiveraV2 { name, api_key }),
            ApiType::Alamos => Notifier::Alamos(MockApi { name, api_key }),
            ApiType::Telegram => Notifier::Telegram(Telegram { name, bot_token: api_key }),
        }
    }

    /// What is sent for a first alarm.
    pub fn trigger_alarm(&self, alarm: &Alarm) -> (requests: Vec<Request>)
        ensures
            requests.deep_view() == trigger_requests(self.deep_view(), alarm@),
    {
        match self {
            Notifier::Divera(n) => n.trigger_alarm(alarm),
            Notifier::Alamos(n) => n.trigger_alarm(alarm),
            Notifier::Telegram(n) => n.trigger_alarm(alarm),
        }
    }

    /// What is sent for an update.
    pub fn update_alarm(&self, alarm: &Alarm) -> (requests: Vec<Request>)
        ensures
            requests.deep_view() == Seq::<RequestView>::empty(),
    {
        match self {
            Notifier::Divera(n) => n.update_alarm(alarm),
            Notifier::Alamos(n) => n.update_alarm(alarm),
            Notifier::Telegram(n) => n.update_alarm(alarm),
        }
    }

    /// What is sent for an alarm of the class `kind`.
    pub fn requests(&self, kind: AlarmType, alarm: &Alarm) -> (requests: Vec<Request>)
        ensures
            requests.deep_view() == notifier_requests(self.deep_view(), kind, alarm@),
    {
        match kind {
            AlarmType::FirstAlarm => self.trigger_alarm(alarm),
            AlarmType::UpdateAlarm => self.update_alarm(alarm),
            AlarmType::DropAlarm => {
                let requests: Vec<Request> = Vec::new();
                assert(requests.deep_view() =~= Seq::<RequestView>::empty());
                requests
            },
        }
    }
}

} // verus!
