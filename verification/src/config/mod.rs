//! Configuration values that the pipeline is started with.
pub mod alarm_sources;
pub mod alarm_templates;
pub mod general;

use vstd::prelude::*;
use crate::config::alarm_sources::AlarmSources;
use crate::config::alarm_templates::AlarmTemplates;
use crate::config::general::GeneralConfig;

verus! {

/// The whole configuration: the sources, the templates and the settings.
#[derive(Debug, Clone)]
pub struct Configs {
    pub alarm_sources: AlarmSources,
    pub alarm_templates: AlarmTemplates,
    pub general: GeneralConfig,
}

} // verus!
