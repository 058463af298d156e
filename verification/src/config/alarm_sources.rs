//! The sources that alarms come from.
use vstd::prelude::*;
use crate::name_map::NameMap;

verus! {

/// One mailbox: how to reach it, which mails count as alarms and how their
/// bodies are read.
#[derive(Debug, Clone)]
pub struct MailConfig {
    pub name: String,
    pub user: String,
    pub password: String,
    pub host: String,
    pub port: u16,
    pub tls: bool,
    /// The greatest age of a mail in seconds; zero for no limit.
    pub max_age: u64,
    /// The sender that alarms come from, or `*` for any.
    pub alarm_sender: String,
    /// The subject that alarms carry, or `*` for any.
    pub alarm_subject: String,
    /// The template that each unit calls for.
    pub alarm_template_keywords: NameMap<String>,
    /// The name of the format of the mail's body.
    pub mail_schema: String,
    pub stichwoerter: NameMap<String>,
    /// Units that are never put on an alarm.
    pub ignore_units: Vec<String>,
    pub polling: bool,
    /// The seconds between two looks into the mailbox.
    pub polling_interval: u64,
    pub idle: bool,
    pub active: bool,
}

/// One serial device: how to open it, what ends a frame and which keywords
/// make a title.
#[derive(Debug, Clone)]
pub struct SerialConfig {
    pub name: String,
    pub port: String,
    /// The end of a frame, with `\r`, `\n` and `\0` written out.
    pub delimiter: String,
    pub baudrate: u32,
    pub alarm_list: Vec<String>,
    pub rics: NameMap<String>,
    pub active: bool,
}

/// Every configured source.
#[derive(Debug, Clone)]
pub struct AlarmSources {
    pub mail_sources: Vec<MailConfig>,
    pub serial_sources: Vec<SerialConfig>,
}

} // verus!
