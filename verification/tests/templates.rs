use alarm_relay::alarm::Alarm;
use alarm_relay::alarm_handler::{apply_whole_template, resolve_templates};
use alarm_relay::config::alarm_templates::{
    AlarmTemplateConfig, AlarmTemplateReceiver, AlarmTemplates,
};
use alarm_relay::name_map::NameMap;

fn names(list: &[&str]) -> Vec<String> {
    list.iter().map(|s| s.to_string()).collect()
}

fn api(
    members: Option<&[&str]>,
    groups: Option<&[&str]>,
    vehicles: Option<&[&str]>,
) -> AlarmTemplateReceiver {
    AlarmTemplateReceiver::Api {
        members: members.map(names),
        groups: groups.map(names),
        vehicles: vehicles.map(names),
    }
}

fn template(entries: Vec<(&str, AlarmTemplateReceiver)>) -> AlarmTemplateConfig {
    let mut apis = NameMap::new();
    for (target, receiver) in entries {
        apis.insert(target.to_string(), receiver);
    }
    AlarmTemplateConfig { apis }
}

fn templates(entries: Vec<(&str, AlarmTemplateConfig)>) -> AlarmTemplates {
    let mut all = NameMap::new();
    for (name, config) in entries {
        all.insert(name.to_string(), config);
    }
    AlarmTemplates { templates: all }
}

#[test]
fn defined_fields_replace_and_undefined_fields_stay() {
    let mut alarm = Alarm::new(0);
    alarm.apply_template(
        "divera".to_string(),
        api(Some(&["anna"]), Some(&["g1", "g2"]), Some(&["v1"])),
    );
    alarm.apply_template("divera".to_string(), api(None, Some(&["g3"]), None));
    let receivers = alarm.get_receivers("divera");
    assert_eq!(receivers.members, names(&["anna"]));
    assert_eq!(receivers.groups, names(&["g3"]));
    assert_eq!(receivers.vehicles, names(&["v1"]));
}

#[test]
fn a_defined_empty_list_replaces_too() {
    let mut alarm = Alarm::new(0);
    alarm.apply_template("divera".to_string(), api(Some(&["anna"]), None, None));
    alarm.apply_template("divera".to_string(), api(Some(&[]), None, None));
    assert!(alarm.get_receivers("divera").members.is_empty());
}

#[test]
fn targets_do_not_touch_each_other() {
    let mut alarm = Alarm::new(0);
    alarm.apply_template("divera".to_string(), api(None, Some(&["g1"]), None));
    alarm.apply_template("telegram".to_string(), api(Some(&["42"]), None, None));
    assert_eq!(alarm.receiver.len(), 2);
    assert_eq!(alarm.receiver.name_at(0), "divera");
    assert_eq!(alarm.receiver.name_at(1), "telegram");
    assert_eq!(alarm.get_receivers("divera").groups, names(&["g1"]));
    assert!(alarm.get_receivers("divera").members.is_empty());
    assert_eq!(alarm.get_receivers("telegram").members, names(&["42"]));
}

#[test]
fn unknown_target_has_no_receivers() {
    let alarm = Alarm::new(0);
    let receivers = alarm.get_receivers("nobody");
    assert!(receivers.members.is_empty());
    assert!(receivers.groups.is_empty());
    assert!(receivers.vehicles.is_empty());
}

#[test]
fn webhooks_pile_up_with_duplicates() {
    let mut alarm = Alarm::new(0);
    alarm.apply_template(
        "hooks".to_string(),
        AlarmTemplateReceiver::Webhooks(names(&["http://a", "http://b"])),
    );
    alarm.apply_template(
        "other".to_string(),
        AlarmTemplateReceiver::Webhooks(names(&["http://b", "http://c"])),
    );
    assert_eq!(alarm.webhooks, names(&["http://a", "http://b", "http://b", "http://c"]));
    assert_eq!(alarm.receiver.len(), 0);
}

#[test]
fn webhooks_leave_receivers_alone() {
    let mut alarm = Alarm::new(0);
    alarm.apply_template("divera".to_string(), api(None, Some(&["g1"]), None));
    alarm.apply_template(
        "divera".to_string(),
        AlarmTemplateReceiver::Webhooks(names(&["http://a"])),
    );
    assert_eq!(alarm.get_receivers("divera").groups, names(&["g1"]));
    assert_eq!(alarm.webhooks, names(&["http://a"]));
}

#[test]
fn whole_template_applies_entries_in_order() {
    let mut alarm = Alarm::new(0);
    let config = template(vec![
        ("divera", api(None, Some(&["g1"]), None)),
        ("hooks", AlarmTemplateReceiver::Webhooks(names(&["http://a"]))),
        ("telegram", api(Some(&["42"]), None, None)),
    ]);
    apply_whole_template(&mut alarm, &config);
    assert_eq!(alarm.receiver.len(), 2);
    assert_eq!(alarm.get_receivers("divera").groups, names(&["g1"]));
    assert_eq!(alarm.get_receivers("telegram").members, names(&["42"]));
    assert_eq!(alarm.webhooks, names(&["http://a"]));
}

#[test]
fn default_comes_first_then_named_templates_in_order() {
    let all = templates(vec![
        (
            "default",
            template(vec![
                ("divera", api(None, Some(&["alle"]), Some(&["v0"]))),
                ("hooks", AlarmTemplateReceiver::Webhooks(names(&["http://d"]))),
            ]),
        ),
        (
            "lf1",
            template(vec![
                ("divera", api(None, Some(&["lf1"]), None)),
                ("hooks", AlarmTemplateReceiver::Webhooks(names(&["http://1"]))),
            ]),
        ),
        ("dlk", template(vec![("divera", api(None, Some(&["dlk"]), None))])),
    ]);
    let mut alarm = Alarm::new(0);
    alarm.add_template_name("lf1".to_string());
    alarm.add_template_name("missing".to_string());
    alarm.add_template_name("dlk".to_string());
    assert!(resolve_templates(&mut alarm, &all));
    let receivers = alarm.get_receivers("divera");
    assert_eq!(receivers.groups, names(&["dlk"]));
    assert_eq!(receivers.vehicles, names(&["v0"]));
    assert_eq!(alarm.webhooks, names(&["http://d", "http://1"]));
    assert_eq!(alarm.template_names, names(&["lf1", "missing", "dlk"]));
}

#[test]
fn missing_default_leaves_the_alarm_untouched() {
    let all = templates(vec![("lf1", template(vec![("divera", api(None, Some(&["lf1"]), None))]))]);
    let mut alarm = Alarm::new(7);
    alarm.add_template_name("lf1".to_string());
    assert!(!resolve_templates(&mut alarm, &all));
    assert_eq!(alarm.receiver.len(), 0);
    assert!(alarm.webhooks.is_empty());
    assert_eq!(alarm.time, 7);
}

#[test]
fn name_map_keeps_first_position_and_last_value() {
    let mut map: NameMap<String> = NameMap::new();
    map.insert("a".to_string(), "1".to_string());
    map.insert("b".to_string(), "2".to_string());
    map.insert("a".to_string(), "3".to_string());
    assert_eq!(map.len(), 2);
    assert_eq!(map.name_at(0), "a");
    assert_eq!(map.value_at(0), "3");
    assert_eq!(map.name_at(1), "b");
    assert_eq!(map.get("a"), Some(&"3".to_string()));
    assert_eq!(map.get("c"), None);
    assert_eq!(map.position("b"), Some(1));
    assert!(map.contains_key("b"));
    assert!(!map.contains_key("B"));
}
