use alarm_relay::alarm::Alarm;
use alarm_relay::alarm_handler::{AlarmHandler, AlarmType, Decision};
use alarm_relay::apis::{Notifier, Request};
use alarm_relay::config::alarm_sources::{MailConfig, SerialConfig};
use alarm_relay::config::alarm_templates::{
    AlarmTemplateConfig, AlarmTemplateReceiver, AlarmTemplates,
};
use alarm_relay::config::general::{ApiConfig, ApiType, GeneralConfig};
use alarm_relay::mail_handler::{parse_forward_mail, MailHandler};
use alarm_relay::name_map::NameMap;
use alarm_relay::serial_handler::SerialHandler;

fn names(list: &[&str]) -> Vec<String> {
    list.iter().map(|s| s.to_string()).collect()
}

fn notifier(name: &str, api: ApiType, key: &str) -> ApiConfig {
    ApiConfig { name: name.to_string(), api, api_key: key.to_string() }
}

fn settings(apis: Vec<ApiConfig>, priority: &[&str]) -> GeneralConfig {
    GeneralConfig { apis, timeout: 60, source_priority: names(priority), alarm: true }
}

fn members(list: &[&str]) -> AlarmTemplateReceiver {
    AlarmTemplateReceiver::Api { members: Some(names(list)), groups: None, vehicles: None }
}

fn groups(list: &[&str]) -> AlarmTemplateReceiver {
    AlarmTemplateReceiver::Api { members: None, groups: Some(names(list)), vehicles: None }
}

fn templates(entries: Vec<(&str, Vec<(&str, AlarmTemplateReceiver)>)>) -> AlarmTemplates {
    let mut all = NameMap::new();
    for (name, targets) in entries {
        let mut apis = NameMap::new();
        for (target, receiver) in targets {
            apis.insert(target.to_string(), receiver);
        }
        all.insert(name.to_string(), AlarmTemplateConfig { apis });
    }
    AlarmTemplates { templates: all }
}

fn alarm_from(origin: &str, time: u64) -> Alarm {
    let mut alarm = Alarm::new(time);
    alarm.set_origin(origin.to_string());
    alarm.set_title("Brand".to_string());
    alarm.set_text("Rauch".to_string());
    alarm
}

#[test]
fn the_registry_is_built_from_the_settings() {
    let handler = AlarmHandler::new(
        settings(
            vec![
                notifier("divera", ApiType::Divera, "K1"),
                notifier("telegram", ApiType::Telegram, "T0K"),
                notifier("divera", ApiType::Alamos, "K2"),
            ],
            &[],
        ),
        templates(vec![]),
    );
    assert_eq!(handler.apis.len(), 2);
    assert!(matches!(handler.apis.get("divera"), Some(Notifier::Alamos(_))));
    assert!(matches!(handler.apis.get("telegram"), Some(Notifier::Telegram(_))));
    assert!(handler.last_alarm.is_none());
}

#[test]
fn without_a_default_template_the_handler_halts() {
    let handler = AlarmHandler::new(
        settings(vec![], &[]),
        templates(vec![("lf1", vec![("divera", groups(&["g"]))])]),
    );
    let mut alarm = alarm_from("mail", 0);
    alarm.add_template_name("lf1".to_string());
    assert!(matches!(handler.decide(&mut alarm), Decision::Halt));
    assert_eq!(alarm.receiver.len(), 0);
}

#[test]
fn an_unregistered_target_does_not_hinder_the_others() {
    let handler = AlarmHandler::new(
        settings(vec![notifier("divera", ApiType::Divera, "K1")], &[]),
        templates(vec![(
            "default",
            vec![("telegram", members(&["42"])), ("divera", groups(&["g1"]))],
        )]),
    );
    let mut alarm = alarm_from("mail", 0);
    match handler.decide(&mut alarm) {
        Decision::Dispatch { kind, calls, webhooks } => {
            assert_eq!(kind, AlarmType::FirstAlarm);
            assert!(webhooks.is_empty());
            assert_eq!(calls.len(), 2);
            assert_eq!(calls[0].target, "telegram");
            assert!(calls[0].requests.is_none());
            assert_eq!(calls[1].target, "divera");
            let requests = calls[1].requests.as_ref().expect("divera is registered");
            assert_eq!(requests.len(), 1);
            match &requests[0] {
                Request::Divera(posted) => {
                    assert_eq!(posted.group, names(&["g1"]));
                    assert_eq!(posted.accesskey, "K1");
                }
                _ => panic!("a posted alarm was expected"),
            }
        }
        _ => panic!("the alarm should be dispatched"),
    }
}

#[test]
fn the_call_for_a_target_is_the_same_with_and_without_the_other_notifier() {
    let all = || {
        templates(vec![(
            "default",
            vec![("telegram", members(&["42"])), ("divera", groups(&["g1"]))],
        )])
    };
    let with_both = AlarmHandler::new(
        settings(
            vec![
                notifier("divera", ApiType::Divera, "K1"),
                notifier("telegram", ApiType::Telegram, "T0K"),
            ],
            &[],
        ),
        all(),
    );
    let with_one =
        AlarmHandler::new(settings(vec![notifier("divera", ApiType::Divera, "K1")], &[]), all());
    let mut first = alarm_from("mail", 0);
    let mut second = alarm_from("mail", 0);
    let (a, b) = match (with_both.decide(&mut first), with_one.decide(&mut second)) {
        (Decision::Dispatch { calls: a, .. }, Decision::Dispatch { calls: b, .. }) => (a, b),
        _ => panic!("both alarms should be dispatched"),
    };
    assert_eq!(format!("{:?}", a[1]), format!("{:?}", b[1]));
    assert!(a[0].requests.is_some());
    assert!(b[0].requests.is_none());
}

#[test]
fn an_update_calls_update_and_a_drop_calls_nothing() {
    let mut handler = AlarmHandler::new(
        settings(vec![notifier("divera", ApiType::Divera, "K1")], &["mail", "pager"]),
        templates(vec![(
            "default",
            vec![
                ("divera", groups(&["g1"])),
                ("hooks", AlarmTemplateReceiver::Webhooks(names(&["http://a", "http://b"]))),
            ],
        )]),
    );
    let mut first = alarm_from("mail", 1_000);
    match handler.decide(&mut first) {
        Decision::Dispatch { kind, calls, webhooks } => {
            assert_eq!(kind, AlarmType::FirstAlarm);
            assert_eq!(calls.len(), 1);
            assert_eq!(calls[0].requests.as_ref().map(|r| r.len()), Some(1));
            assert_eq!(webhooks, names(&["http://a", "http://b"]));
        }
        _ => panic!("the first alarm should be dispatched"),
    }
    handler.complete(first);
    let mut lesser = alarm_from("pager", 2_000);
    assert!(matches!(handler.decide(&mut lesser), Decision::Drop));
    assert_eq!(handler.last_alarm.as_ref().map(|a| a.time), Some(1_000));
    let mut same = alarm_from("mail", 3_000);
    match handler.decide(&mut same) {
        Decision::Dispatch { kind, calls, webhooks } => {
            assert_eq!(kind, AlarmType::UpdateAlarm);
            assert_eq!(calls.len(), 1);
            assert_eq!(calls[0].requests.as_ref().map(|r| r.len()), Some(0));
            assert_eq!(webhooks, names(&["http://a", "http://b"]));
        }
        _ => panic!("the update should be dispatched"),
    }
    handler.complete(same);
    assert_eq!(handler.last_alarm.as_ref().map(|a| a.time), Some(3_000));
    let mut late = alarm_from("pager", 63_000_000_000);
    assert!(matches!(
        handler.decide(&mut late),
        Decision::Dispatch { kind: AlarmType::FirstAlarm, .. }
    ));
}

#[test]
fn a_mail_ends_as_a_message_to_the_members() {
    let html = "<html><body><table>\
<tr><td>Notfallgeschehen:</td><td>Feuer (Brand)</td></tr>\
<tr><td>Sachverhalt:</td><td>Rauch</td></tr>\
<tr><td>Strasse / Hs.-Nr.:</td><td>Musterstr 1</td></tr>\
</table></body></html>";
    let raw = format!(
        "Subject: Einsatz\r\nFrom: Leitstelle <ls@example.org>\r\nContent-Type: text/html; charset=utf-8\r\n\r\n{}",
        html
    );
    let data = parse_forward_mail(raw.as_bytes(), 100).expect("a mail");
    let mut mailbox = MailHandler::new(
        MailConfig {
            name: "leitstelle".to_string(),
            user: "u".to_string(),
            password: "SECRET-REDACTED".to_string(),
            host: "imap.example.org".to_string(),
            port: 993,
            tls: true,
            max_age: 30,
            alarm_sender: "ls@example.org".to_string(),
            alarm_subject: "Einsatz".to_string(),
            alarm_template_keywords: NameMap::new(),
            mail_schema: "SL-securCAD".to_string(),
            stichwoerter: NameMap::new(),
            ignore_units: Vec::new(),
            polling: true,
            polling_interval: 10,
            idle: false,
            active: true,
        },
        false,
    );
    let mut alarm = mailbox.process_mail(&data, 110, 5).expect("an alarm");
    assert_eq!(alarm.title, "Brand");
    assert_eq!(alarm.text, "Rauch");
    assert_eq!(alarm.address.street, "Musterstr 1");
    assert_eq!(alarm.origin, "leitstelle");
    let handler = AlarmHandler::new(
        settings(vec![notifier("telegram", ApiType::Telegram, "T0K")], &["leitstelle"]),
        templates(vec![("default", vec![("telegram", members(&["42", "43"]))])]),
    );
    match handler.decide(&mut alarm) {
        Decision::Dispatch { kind, calls, webhooks } => {
            assert_eq!(kind, AlarmType::FirstAlarm);
            assert!(webhooks.is_empty());
            assert_eq!(calls.len(), 1);
            assert_eq!(calls[0].target, "telegram");
            let requests = calls[0].requests.as_ref().expect("telegram is registered");
            assert_eq!(requests.len(), 2);
            match &requests[0] {
                Request::Get(url) => assert_eq!(
                    url,
                    "https://api.telegram.org/botT0K/sendMessage?chat_id=42&text=%5C%2ABrand%5C%2A%0ARauch&parse_mode=MarkdownV2"
                ),
                _ => panic!("a fetch was expected"),
            }
            match &requests[1] {
                Request::Get(url) => assert!(url.contains("chat_id=43&")),
                _ => panic!("a fetch was expected"),
            }
        }
        _ => panic!("the alarm should be dispatched"),
    }
    assert_eq!(alarm.get_receivers("telegram").members, names(&["42", "43"]));
}

#[test]
fn a_pager_alarm_is_ranked_by_its_source() {
    let pager = SerialHandler::new(
        SerialConfig {
            name: "dme1".to_string(),
            port: "/dev/ttyUSB0".to_string(),
            delimiter: "\\r\\n".to_string(),
            baudrate: 9600,
            alarm_list: names(&["FEUER"]),
            rics: NameMap::new(),
            active: true,
        },
        false,
    );
    let frame = "2024-01-01\r\nRIC1\r\nFEUER Musterstr 1\r\n";
    let mut handler = AlarmHandler::new(
        settings(vec![], &["mail", "dme1"]),
        templates(vec![("default", vec![])]),
    );
    let mut first = alarm_from("mail", 1_000);
    assert!(matches!(handler.decide(&mut first), Decision::Dispatch { .. }));
    handler.complete(first);
    let mut lesser = pager.handle_dme_data(frame, 2_000).expect("an alarm");
    assert_eq!(lesser.origin, "dme1");
    assert!(matches!(handler.decide(&mut lesser), Decision::Drop));
    let mut handler = AlarmHandler::new(
        settings(vec![], &["dme1", "mail"]),
        templates(vec![("default", vec![])]),
    );
    let mut first = alarm_from("mail", 1_000);
    assert!(matches!(handler.decide(&mut first), Decision::Dispatch { .. }));
    handler.complete(first);
    let mut higher = pager.handle_dme_data(frame, 2_000).expect("an alarm");
    assert!(matches!(
        handler.decide(&mut higher),
        Decision::Dispatch { kind: AlarmType::UpdateAlarm, .. }
    ));
}
