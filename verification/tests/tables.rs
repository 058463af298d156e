use alarm_relay::alarm::{Alarm, Coordinates};
use alarm_relay::config::alarm_sources::MailConfig;
use alarm_relay::mail_parser::helpers::{
    decode_text, get_table_key_order, key_order_from_rows, parse_tables, table_from_rows,
};
use alarm_relay::mail_parser::mock_parser::MockParser;
use alarm_relay::mail_parser::plaintext_parser::PlaintextParser;
use alarm_relay::mail_parser::sl_secur_cad::{read_fields, SecurCadParser};
use alarm_relay::mail_parser::{MailParser, ParseError};
use alarm_relay::name_map::NameMap;

fn names(list: &[&str]) -> Vec<String> {
    list.iter().map(|s| s.to_string()).collect()
}

fn rows(list: &[&[&str]]) -> Vec<Vec<String>> {
    list.iter().map(|row| names(row)).collect()
}

fn mailbox(ignore: &[&str], keywords: &[(&str, &str)]) -> MailConfig {
    let mut alarm_template_keywords = NameMap::new();
    for (unit, template) in keywords {
        alarm_template_keywords.insert(unit.to_string(), template.to_string());
    }
    MailConfig {
        name: "leitstelle".to_string(),
        user: "u".to_string(),
        password: "SECRET-REDACTED".to_string(),
        host: "imap.example.org".to_string(),
        port: 993,
        tls: true,
        max_age: 0,
        alarm_sender: "*".to_string(),
        alarm_subject: "*".to_string(),
        alarm_template_keywords,
        mail_schema: "SL-securCAD".to_string(),
        stichwoerter: NameMap::new(),
        ignore_units: names(ignore),
        polling: false,
        polling_interval: 0,
        idle: false,
        active: true,
    }
}

fn page(body_rows: &str) -> String {
    format!("<html><body><table>{}</table></body></html>", body_rows)
}

const DISPATCH: &str = "<tr><td>Auftragsnummer:</td><td>4711</td></tr>\
<tr><td>Stichwort:</td><td>B2</td></tr>\
<tr><td>Notfallgeschehen:</td><td>Feuer (Brand Wohnung) gross</td></tr>\
<tr><td>Objekt:</td><td>Schule</td></tr>\
<tr><td>Sachverhalt:</td><td>Rauch im Keller</td></tr>\
<tr><td>Strasse:</td><td>Musterstr</td></tr>\
<tr><td>Strasse / Hs.-Nr.:</td><td>Musterstr 1</td></tr>\
<tr><td>PLZ / Ort:</td><td>12345 Musterstadt</td></tr>\
<tr><td>Info:</td><td>Hof</td></tr>\
<tr><td>UTM:</td><td>32U 1 2</td></tr>\
<tr><td>Geopositionen:</td><td>11,5</td><td>48,1</td></tr>\
<tr><td>Ressourcen</td></tr>\
<tr><td>LF 1</td><td>alarmiert</td></tr>\
<tr><td>DLK</td><td>alarmiert</td></tr>\
<tr><td>RTW</td><td>alarmiert</td></tr>\
<tr><td>Meldender des Hilfeersuchens</td><td>Nachbar</td></tr>";

#[test]
fn quoted_printable_cells_are_decoded() {
    assert_eq!(decode_text("Stra=C3=9Fe"), Some("Stra\u{df}e".to_string()));
    assert_eq!(decode_text("plain"), Some("plain".to_string()));
    assert_eq!(decode_text(""), Some("".to_string()));
    assert_eq!(decode_text("=ZZ"), None);
    assert_eq!(decode_text("Stra\u{df}e"), None);
    assert_eq!(decode_text("=FF"), None);
}

#[test]
fn rows_make_a_table() {
    let table = table_from_rows(&rows(&[
        &[" Objekt: ", " Schu\nle\t ", "Stra=C3=9Fe"],
        &["", "Hof"],
        &[],
        &["Info:"],
        &["Objekt:", "neu"],
    ]))
    .expect("a table");
    assert_eq!(table.len(), 2);
    assert_eq!(table.get("Objekt:"), Some(&names(&["Schule", "Stra\u{df}e", "Hof", "neu"])));
    assert_eq!(table.get("Info:"), Some(&Vec::new()));
    assert_eq!(table.get("Objekt"), None);
}

#[test]
fn cells_before_any_title_go_under_the_empty_title() {
    let table = table_from_rows(&rows(&[&[" ", "lost"], &["A", "1"]])).expect("a table");
    assert_eq!(table.get(""), Some(&names(&["lost"])));
    assert_eq!(table.get("A"), Some(&names(&["1"])));
}

#[test]
fn an_undecodable_cell_fails_the_table() {
    assert!(table_from_rows(&rows(&[&["A", "1"], &["B", "=ZZ"]])).is_none());
    assert!(table_from_rows(&rows(&[&["=ZZ", "1"]])).is_none());
    assert!(table_from_rows(&rows(&[&["A", "Stra\u{df}e"]])).is_none());
}

#[test]
fn titles_are_listed_as_they_stand() {
    assert_eq!(
        key_order_from_rows(&rows(&[&[" A "], &["", "x"], &[], &["B=41", "y"], &["A"]])),
        names(&["A", "B=41", "A"])
    );
}

#[test]
fn tables_are_found_in_html() {
    let body = page("<tr><td> A: </td><td>1</td><td> 2 </td></tr><tr><td></td><td>3</td></tr><tr><td>B:</td></tr>");
    let table = parse_tables(&body).expect("a table");
    assert_eq!(table.get("A:"), Some(&names(&["1", "2", "3"])));
    assert_eq!(table.get("B:"), Some(&Vec::new()));
    assert_eq!(get_table_key_order(&body), names(&["A:", "B:"]));
    let none = parse_tables("no table here").expect("a table");
    assert_eq!(none.len(), 0);
    assert!(get_table_key_order("<p>nothing</p>").is_empty());
}

#[test]
fn cell_text_includes_nested_markup() {
    let body = page("<tr><td><b>Objekt:</b></td><td>Alte <i>Schule</i></td></tr>");
    let table = parse_tables(&body).expect("a table");
    assert_eq!(table.get("Objekt:"), Some(&names(&["Alte Schule"])));
}

#[test]
fn fields_are_the_first_cells() {
    let table = parse_tables(&page(DISPATCH)).expect("a table");
    let fields = read_fields(&table).expect("fields");
    assert_eq!(fields.id, "4711");
    assert_eq!(fields.keyword, "B2");
    assert_eq!(fields.incident, "Feuer (Brand Wohnung) gross");
    assert_eq!(fields.street_number, "Musterstr 1");
    let empty = parse_tables("").expect("a table");
    let fields = read_fields(&empty).expect("fields");
    assert_eq!(fields.id, "");
    assert_eq!(fields.utm, "");
}

#[test]
fn a_dispatch_mail_fills_the_alarm() {
    let config = mailbox(&["RTW"], &[("DLK", "drehleiter"), ("alt", "bestand"), ("RTW", "rd")]);
    let mut alarm = Alarm::new(3);
    alarm.add_unit("alt".to_string());
    alarm.address.set_object_id("17".to_string());
    alarm.address.set_coords(Coordinates {
        lat: Some("1".to_string()),
        lon: Some("2".to_string()),
    });
    let summary = SecurCadParser.parse("plain", &page(DISPATCH), &mut alarm, &config);
    assert_eq!(summary, Ok("Parsed SecurCad: plain".to_string()));
    assert_eq!(alarm.id, "4711");
    assert_eq!(alarm.title, "Brand Wohnung");
    assert_eq!(alarm.text, "Rauch im Keller");
    assert_eq!(alarm.address.object, "Schule");
    assert_eq!(alarm.address.street, "Musterstr 1");
    assert_eq!(alarm.address.city, "12345 Musterstadt");
    assert_eq!(alarm.address.info, "Hof");
    assert_eq!(alarm.address.utm, "32U 1 2");
    assert_eq!(alarm.address.object_id, "17");
    assert_eq!(alarm.address.coords.lat, None);
    assert_eq!(alarm.address.coords.lon, None);
    assert_eq!(alarm.units, names(&["alt", "LF 1", "DLK"]));
    assert_eq!(alarm.template_names, names(&["bestand", "drehleiter"]));
    assert_eq!(alarm.time, 3);
    assert_eq!(alarm.origin, "");
}

#[test]
fn the_title_is_what_stands_between_the_outer_brackets() {
    let config = mailbox(&[], &[]);
    let mut alarm = Alarm::new(0);
    let body = page("<tr><td>Notfallgeschehen:</td><td>a (b (c) d) e</td></tr>");
    assert!(SecurCadParser.parse("", &body, &mut alarm, &config).is_ok());
    assert_eq!(alarm.title, "b (c) d");
    let body = page("<tr><td>Notfallgeschehen:</td><td>ohne Klammer</td></tr>");
    assert!(SecurCadParser.parse("", &body, &mut alarm, &config).is_ok());
    assert_eq!(alarm.title, "ohne Klammer");
}

#[test]
fn without_an_incident_the_title_stays() {
    let config = mailbox(&[], &[]);
    let mut alarm = Alarm::new(0);
    alarm.set_title("vorher".to_string());
    alarm.address.set_street("alte Str".to_string());
    let body = page("<tr><td>Objekt:</td><td>Schule</td></tr><tr><td>Strasse:</td><td>Neue Str</td></tr>");
    assert!(SecurCadParser.parse("", &body, &mut alarm, &config).is_ok());
    assert_eq!(alarm.title, "vorher");
    assert_eq!(alarm.text, "Schule");
    assert_eq!(alarm.address.street, "Neue Str");
    assert_eq!(alarm.id, "");
    assert!(alarm.units.is_empty());
}

#[test]
fn units_need_both_marks_in_order() {
    let config = mailbox(&[], &[("LF 1", "lf")]);
    let mut alarm = Alarm::new(0);
    let body = page("<tr><td>LF 1</td><td>x</td></tr><tr><td>Meldender des Hilfeersuchens</td><td>y</td></tr>");
    assert!(SecurCadParser.parse("", &body, &mut alarm, &config).is_ok());
    assert_eq!(alarm.units, names(&["LF 1"]));
    assert_eq!(alarm.template_names, names(&["lf"]));
    let mut alarm = Alarm::new(0);
    let body = page("<tr><td>Ressourcen</td></tr><tr><td>LF 1</td><td>x</td></tr>");
    assert!(SecurCadParser.parse("", &body, &mut alarm, &config).is_ok());
    assert!(alarm.units.is_empty());
    assert!(alarm.template_names.is_empty());
    let mut alarm = Alarm::new(0);
    let body = page("<tr><td>Meldender des Hilfeersuchens</td></tr><tr><td>LF 1</td><td>x</td></tr><tr><td>Ressourcen</td></tr>");
    assert!(SecurCadParser.parse("", &body, &mut alarm, &config).is_ok());
    assert!(alarm.units.is_empty());
}

#[test]
fn the_table_may_stand_in_the_plain_text() {
    let config = mailbox(&[], &[]);
    let mut alarm = Alarm::new(0);
    let text = page("<tr><td>Auftragsnummer:</td><td>9</td></tr>");
    assert_eq!(
        SecurCadParser.parse(&text, "", &mut alarm, &config),
        Ok(format!("Parsed SecurCad: {}", text))
    );
    assert_eq!(alarm.id, "9");
}

#[test]
fn a_row_without_a_value_fails_and_leaves_the_alarm() {
    let config = mailbox(&[], &[]);
    let mut alarm = Alarm::new(0);
    alarm.set_id("alt".to_string());
    let body = page("<tr><td>Objekt:</td><td>Schule</td></tr><tr><td>Stichwort:</td></tr>");
    assert_eq!(SecurCadParser.parse("", &body, &mut alarm, &config), Err(ParseError::EmptyRow));
    assert_eq!(alarm.id, "alt");
    assert_eq!(alarm.address.object, "");
    assert_eq!(ParseError::EmptyRow.message(), "a table row has no value");
}

#[test]
fn an_undecodable_cell_fails_and_leaves_the_alarm() {
    let config = mailbox(&[], &[]);
    let mut alarm = Alarm::new(0);
    alarm.set_id("alt".to_string());
    let body = page("<tr><td>Auftragsnummer:</td><td>1</td></tr><tr><td>Objekt:</td><td>=ZZ</td></tr>");
    assert_eq!(SecurCadParser.parse("", &body, &mut alarm, &config), Err(ParseError::Undecodable));
    assert_eq!(alarm.id, "alt");
    assert_eq!(ParseError::Undecodable.message(), "a table cell cannot be decoded");
}

#[test]
fn the_other_readers() {
    let config = mailbox(&[], &[]);
    let mut alarm = Alarm::new(0);
    alarm.set_text("vorher ".to_string());
    assert_eq!(
        PlaintextParser.parse("Brand", "<p>", &mut alarm, &config),
        Ok("Plaintext Parser done: Brand".to_string())
    );
    assert_eq!(alarm.text, "vorher Brand");
    assert_eq!(
        MockParser.parse("Brand", "<p>", &mut alarm, &config),
        Ok("Parsed SecurCad: Brand".to_string())
    );
    assert_eq!(alarm.text, "vorher Brand");
}
