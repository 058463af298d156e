//! The readers of mail bodies, one for each format.
pub mod helpers;
pub mod mock_parser;
pub mod plaintext_parser;
pub mod sl_secur_cad;

use vstd::prelude::*;
use crate::alarm::{Alarm, AlarmView};
use crate::config::alarm_sources::MailConfig;

verus! {

/// Why a body could not be read.
#[derive(Debug, Clone, Copy, PartialEq, Eq, Structural)]
pub enum ParseError {
    /// A cell of a table is not well-formed quoted-printable text in UTF-8.
    Undecodable,
    /// A row that the alarm is read from has a title and no cell beside it.
    EmptyRow,
}

impl ParseError {
    /// The error in words.
    pub fn message(&self) -> (text: String)
        ensures
            text@ == match *self {
                ParseError::Undecodable => "a table cell cannot be decoded"@,
                ParseError::EmptyRow => "a table row has no value"@,
            },
    {
        match self {
            ParseError::Undecodable => "a table cell cannot be decoded".to_string(),
            ParseError::EmptyRow => "a table row has no value".to_string(),
        }
    }
}

/// What a reader makes of a mail: the alarm afterwards, and a summary or
/// the reason of the failure.
pub ghost struct Reading {
    pub alarm: AlarmView,
    pub summary: Result<Seq<char>, ParseError>,
}

/// Whether `result` is what the reading `reading` returns.
pub open spec fn is_result_of(result: Result<String, ParseError>, reading: Reading) -> bool {
    match result {
        Ok(summary) => reading.summary == Ok::<Seq<char>, ParseError>(summary@),
        Err(error) => reading.summary == Err::<Seq<char>, ParseError>(error),
    }
}

/// A reader of mail bodies of one format. It fills the alarm from the plain
/// and the HTML text of a mail and fails, without panicking, on a body that
/// it cannot read.
pub trait MailParser {
    /// What the reader makes of the two texts, given the alarm before.
    spec fn reading(
        &self,
        text_body: Seq<char>,
        html_body: Seq<char>,
        alarm: AlarmView,
        config: MailConfig,
    ) -> Reading;

    /// Reads the two texts into `alarm`.
    fn parse(&self, text_body: &str, html_body: &str, alarm: &mut Alarm, config: &MailConfig) -> (result:
        Result<String, ParseError>)
        ensures
            final(alarm)@ == self.reading(text_body@, html_body@, old(alarm)@, *config).alarm,
            is_result_of(result, self.reading(text_body@, html_body@, old(alarm)@, *config)),
            final(alarm).receiver == old(alarm).receiver,
    ;
}

} // verus!
