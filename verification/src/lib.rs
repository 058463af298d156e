//! Aggregation of emergency-dispatch alerts: normalisation of inbound mail and
//! pager frames into alarms, arbitration against the last dispatched alarm,
//! template-driven receiver resolution and the plan of outbound notifications.
pub mod alarm;
pub mod alarm_handler;
pub mod apis;
pub mod config;
pub mod mail_handler;
pub mod mail_parser;
pub mod name_map;
pub mod serial_handler;
pub mod text;
