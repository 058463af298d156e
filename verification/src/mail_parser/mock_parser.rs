//! A reader that accepts every mail and reads nothing.
use vstd::prelude::*;
use vstd::string::StringExecFns;
use crate::alarm::{Alarm, AlarmView};
use crate::config::alarm_sources::MailConfig;
use crate::mail_parser::{MailParser, ParseError, Reading};

verus! {

/// A reader that accepts every mail and leaves the alarm as it is.
#[derive(Debug)]
pub struct MockParser;

impl MailParser for MockParser {
    open spec fn reading(
        &self,
        text_body: Seq<char>,
        html_body: Seq<char>,
        alarm: AlarmView,
        config: MailConfig,
    ) -> Reading {
        Reading { alarm, summary: Ok("Parsed SecurCad: "@ + text_body) }
    }

    fn parse(&self, text_body: &str, _html_body: &str, _alarm: &mut Alarm, _config: &MailConfig) -> (result:
        Result<String, ParseError>) {
        let mut summary = "Parsed SecurCad: ".to_string();
        summary.append(text_body);
        Ok(summary)
    }
}

} // verus!
