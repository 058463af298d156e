//! A reader for mails whose plain text is the alarm's text.
use vstd::prelude::*;
use vstd::string::StringExecFns;
use crate::alarm::{Alarm, AlarmView};
use crate::config::alarm_sources::MailConfig;
use crate::mail_parser::{MailParser, ParseError, Reading};

verus! {

/// A reader that appends the plain text of the mail to the alarm's text.
#[derive(Debug)]
pub struct PlaintextParser;

impl MailParser for PlaintextParser {
    open spec fn reading(
        &self,
        text_body: Seq<char>,
        html_body: Seq<char>,
        alarm: AlarmView,
        config: MailConfig,
    ) -> Reading {
        Reading {
            alarm: AlarmView { text: alarm.text + text_body, ..alarm },
            summary: Ok("Plaintext Parser done: "@ + text_body),
        }
    }

    fn parse(&self, text_body: &str, _html_body: &str, alarm: &mut Alarm, _config: &MailConfig) -> (result:
        Result<String, ParseError>) {
        alarm.add_to_text(text_body.to_string());
        let mut summary = "Plaintext Parser done: ".to_string();
        summary.append(text_body);
        Ok(summary)
    }
}

} // verus!
