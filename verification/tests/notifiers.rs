use alarm_relay::alarm::{Alarm, Coordinates};
use alarm_relay::alarm_handler::AlarmType;
use alarm_relay::apis::divera_v2::DiveraV2;
use alarm_relay::apis::mock_api::MockApi;
use alarm_relay::apis::telegram::Telegram;
use alarm_relay::apis::{append_location, Notifier, Request};
use alarm_relay::config::alarm_templates::AlarmTemplateReceiver;
use alarm_relay::config::general::{ApiConfig, ApiType};

fn names(list: &[&str]) -> Vec<String> {
    list.iter().map(|s| s.to_string()).collect()
}

fn sample() -> Alarm {
    let mut alarm = Alarm::new(0);
    alarm.set_id("4711".to_string());
    alarm.set_title("A.B".to_string());
    alarm.set_text("x-y".to_string());
    alarm
}

#[test]
fn location_lists_what_is_known() {
    let mut alarm = Alarm::new(0);
    let mut text = "T".to_string();
    append_location(&mut text, &alarm.address);
    assert_eq!(text, "T");
    alarm.address.set_object("Schule".to_string());
    alarm.address.set_info("Hof".to_string());
    alarm.address.set_object_id("17".to_string());
    alarm.address.set_utm("32U 1 2".to_string());
    let mut text = "T".to_string();
    append_location(&mut text, &alarm.address);
    assert_eq!(text, "T\nSchule (Hof)Objekt-ID: 17\n\nUTM: 32U 1 2");
}

#[test]
fn position_needs_both_parts() {
    let mut alarm = Alarm::new(0);
    alarm.address.set_coords(Coordinates { lat: Some("48.1".to_string()), lon: None });
    let mut text = String::new();
    append_location(&mut text, &alarm.address);
    assert_eq!(text, "");
    alarm.address.set_coords(Coordinates {
        lat: Some("48.1".to_string()),
        lon: Some("11.5".to_string()),
    });
    append_location(&mut text, &alarm.address);
    assert_eq!(text, "\n\nKoordinaten: 48.1, 11.5\n\nhttps://maps.apple.com/?q=48.1,11.5");
}

#[test]
fn telegram_message_is_escaped_as_a_whole() {
    let bot = Telegram { name: "telegram".to_string(), bot_token: "T0K".to_string() };
    assert_eq!(bot.message(&sample()), "\\*A\\\\\\.B\\*\nx\\-y");
}

#[test]
fn telegram_address_is_percent_encoded() {
    let bot = Telegram { name: "telegram".to_string(), bot_token: "T0K".to_string() };
    assert_eq!(
        bot.url("42", "a b&c/\u{fc}_~.-*\n"),
        "https://api.telegram.org/botT0K/sendMessage?chat_id=42&text=a%20b%26c%2F%C3%BC_~.-%2A%0A&parse_mode=MarkdownV2"
    );
}

#[test]
fn telegram_writes_to_each_member_in_order() {
    let bot = Telegram { name: "telegram".to_string(), bot_token: "T0K".to_string() };
    let mut alarm = sample();
    alarm.apply_template(
        "telegram".to_string(),
        AlarmTemplateReceiver::Api { members: Some(names(&["1", "2"])), groups: None, vehicles: None },
    );
    let requests = bot.trigger_alarm(&alarm);
    assert_eq!(requests.len(), 2);
    let text = "%5C%2AA%5C%5C%5C.B%5C%2A%0Ax%5C-y";
    for (request, chat) in requests.iter().zip(["1", "2"]) {
        match request {
            Request::Get(url) => assert_eq!(
                url,
                &format!(
                    "https://api.telegram.org/botT0K/sendMessage?chat_id={}&text={}&parse_mode=MarkdownV2",
                    chat, text
                )
            ),
            _ => panic!("a fetch was expected"),
        }
    }
    assert!(bot.update_alarm(&alarm).is_empty());
}

#[test]
fn telegram_without_members_sends_nothing() {
    let bot = Telegram { name: "telegram".to_string(), bot_token: "T0K".to_string() };
    assert!(bot.trigger_alarm(&sample()).is_empty());
}

#[test]
fn divera_posts_one_alarm_with_groups_and_vehicles() {
    let platform = DiveraV2 { name: "divera".to_string(), api_key: "KEY".to_string() };
    let mut alarm = sample();
    alarm.address.set_street("Musterstr 1".to_string());
    alarm.address.set_object("Schule".to_string());
    alarm.apply_template(
        "divera".to_string(),
        AlarmTemplateReceiver::Api {
            members: Some(names(&["m"])),
            groups: Some(names(&["g1", "g2"])),
            vehicles: Some(names(&["v1"])),
        },
    );
    let requests = platform.trigger_alarm(&alarm);
    assert_eq!(requests.len(), 1);
    match &requests[0] {
        Request::Divera(posted) => {
            assert_eq!(posted.accesskey, "KEY");
            assert_eq!(posted.foreign_id, "4711");
            assert_eq!(posted.title, "A.B");
            assert_eq!(posted.text, "x-y\nSchule");
            assert_eq!(posted.address, "Musterstr 1");
            assert_eq!(posted.group, names(&["g1", "g2"]));
            assert_eq!(posted.vehicle, names(&["v1"]));
        }
        _ => panic!("a posted alarm was expected"),
    }
    assert!(platform.update_alarm(&alarm).is_empty());
}

#[test]
fn mock_sends_nothing() {
    let mock = MockApi { name: "alamos".to_string(), api_key: "k".to_string() };
    assert!(mock.trigger_alarm(&sample()).is_empty());
    assert!(mock.update_alarm(&sample()).is_empty());
}

#[test]
fn notifier_follows_its_configuration() {
    let config = ApiConfig {
        name: "telegram".to_string(),
        api: ApiType::Telegram,
        api_key: "T0K".to_string(),
    };
    match Notifier::from_config(&config) {
        Notifier::Telegram(bot) => {
            assert_eq!(bot.name, "telegram");
            assert_eq!(bot.bot_token, "T0K");
        }
        _ => panic!("a chat bot was expected"),
    }
    let config = ApiConfig { name: "d".to_string(), api: ApiType::Divera, api_key: "K".to_string() };
    let notifier = Notifier::from_config(&config);
    assert_eq!(notifier.requests(AlarmType::FirstAlarm, &sample()).len(), 1);
    assert!(notifier.requests(AlarmType::UpdateAlarm, &sample()).is_empty());
    assert!(notifier.requests(AlarmType::DropAlarm, &sample()).is_empty());
    let config = ApiConfig { name: "a".to_string(), api: ApiType::Alamos, api_key: "K".to_string() };
    assert!(matches!(Notifier::from_config(&config), Notifier::Alamos(_)));
}
