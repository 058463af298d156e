use alarm_relay::config::alarm_sources::SerialConfig;
use alarm_relay::name_map::NameMap;
use alarm_relay::serial_handler::{ReadEvent, SerialAction, SerialHandler};

fn device(delimiter: &str, keywords: &[&str]) -> SerialConfig {
    SerialConfig {
        name: "dme".to_string(),
        port: "/dev/ttyUSB0".to_string(),
        delimiter: delimiter.to_string(),
        baudrate: 9600,
        alarm_list: keywords.iter().map(|s| s.to_string()).collect(),
        rics: NameMap::new(),
        active: true,
    }
}

#[test]
fn one_frame_gives_one_alarm_with_its_lines() {
    let mut handler = SerialHandler::new(device("\\r\\n", &["FEUER"]), false);
    assert_eq!(handler.delimiter, vec![b'\r', b'\n']);
    let input = b"2024-01-01\r\nRIC1\r\nFEUER Musterstr 1\r\n".to_vec();
    match handler.on_read(ReadEvent::Bytes(input), 99) {
        SerialAction::Publish(alarm) => {
            assert_eq!(alarm.dme_data.date, "2024-01-01");
            assert_eq!(alarm.dme_data.ric, "RIC1");
            assert_eq!(alarm.dme_data.content, "FEUER Musterstr 1");
            assert_eq!(alarm.text, "FEUER Musterstr 1");
            assert_eq!(alarm.title, "FEUER");
            assert_eq!(alarm.time, 99);
            assert_eq!(alarm.origin, "dme");
        }
        _ => panic!("the frame gave no alarm"),
    }
    assert!(handler.buffer.is_empty());
}

#[test]
fn without_a_matching_keyword_the_title_stays_empty() {
    let handler = SerialHandler::new(device("\\r\\n", &["THL", "RD"]), false);
    let alarm = handler
        .handle_dme_data("2024-01-01\r\nRIC1\r\nFEUER Musterstr 1\r\n", 0)
        .expect("three lines make an alarm");
    assert_eq!(alarm.title, "");
    assert_eq!(alarm.text, "FEUER Musterstr 1");
    assert_eq!(alarm.origin, "dme");
    assert_eq!(alarm.id, "");
    assert_eq!(alarm.receiver.len(), 0);
    assert!(alarm.webhooks.is_empty());
    assert!(alarm.template_names.is_empty());
}

#[test]
fn the_first_matching_keyword_is_the_title() {
    let handler = SerialHandler::new(device("\\n", &["THL", "FEUER", "Muster"]), false);
    let alarm = handler
        .handle_dme_data("d\nr\nFEUER Musterstr 1 THL\n", 0)
        .expect("three lines make an alarm");
    assert_eq!(alarm.title, "THL");
}

#[test]
fn fewer_than_three_lines_are_no_alarm() {
    let handler = SerialHandler::new(device("\\r\\n", &["FEUER"]), false);
    assert!(handler.handle_dme_data("2024-01-01\r\nRIC1\r\n", 0).is_none());
    assert!(handler.handle_dme_data("", 0).is_none());
    assert!(handler.handle_dme_data("a\r\n \r\n\r\nb\r\n", 0).is_none());
}

#[test]
fn lines_are_trimmed_and_empty_lines_do_not_count() {
    let handler = SerialHandler::new(device("\\r\\n", &[]), false);
    let alarm = handler
        .handle_dme_data("\r\n  2024-01-01 \r\n\r\n RIC1\r\n\tFEUER \r\nmore\r\n", 0)
        .expect("three lines make an alarm");
    assert_eq!(alarm.dme_data.date, "2024-01-01");
    assert_eq!(alarm.dme_data.ric, "RIC1");
    assert_eq!(alarm.dme_data.content, "FEUER");
}

#[test]
fn bytes_gather_until_the_delimiter_ends_them() {
    let mut handler = SerialHandler::new(device("\\0", &[]), false);
    assert_eq!(handler.feed(&b"a\nb".to_vec()), None);
    assert_eq!(handler.buffer, b"a\nb".to_vec());
    assert_eq!(handler.feed(&Vec::new()), None);
    assert_eq!(handler.feed(&b"\nc\0".to_vec()), Some("a\nb\nc\0".to_string()));
    assert!(handler.buffer.is_empty());
    assert_eq!(handler.feed(&b"x".to_vec()), None);
    assert_eq!(handler.buffer, b"x".to_vec());
}

#[test]
fn no_bytes_complete_nothing_even_if_the_buffer_ends_with_the_delimiter() {
    let mut handler = SerialHandler::new(device("", &[]), false);
    assert_eq!(handler.feed(&Vec::new()), None);
    assert_eq!(handler.feed(&b"x".to_vec()), Some("x".to_string()));
}

#[test]
fn frames_are_read_as_latin_2() {
    let mut handler = SerialHandler::new(device("\\n", &[]), false);
    let frame = handler.feed(&vec![0x54, 0xfc, 0x72, 0x20, 0xb1, 0xa3, b'\n']);
    assert_eq!(frame, Some("T\u{fc}r \u{105}\u{141}\n".to_string()));
}

#[test]
fn a_timeout_reads_on_and_a_failure_stops() {
    let mut handler = SerialHandler::new(device("\\n", &[]), false);
    assert!(matches!(handler.on_read(ReadEvent::Bytes(b"abc".to_vec()), 0), SerialAction::Continue));
    assert!(matches!(handler.on_read(ReadEvent::TimedOut, 0), SerialAction::Continue));
    assert_eq!(handler.buffer, b"abc".to_vec());
    assert!(matches!(handler.on_read(ReadEvent::Failed, 0), SerialAction::Stop));
    assert_eq!(handler.buffer, b"abc".to_vec());
}

#[test]
fn a_malformed_frame_is_discarded() {
    let mut handler = SerialHandler::new(device("\\n", &[]), false);
    assert!(matches!(
        handler.on_read(ReadEvent::Bytes(b"only one line\n".to_vec()), 0),
        SerialAction::Continue
    ));
    assert!(handler.buffer.is_empty());
}
