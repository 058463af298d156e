//! Settings of the pipeline as a whole.
use vstd::prelude::*;

verus! {

/// The integration behind a notifier.
#[derive(Debug, Clone, Copy, PartialEq, Eq, Structural)]
pub enum ApiType {
    Divera,
    Alamos,
    Telegram,
}

/// One notifier: the name that templates address it by, its kind and its
/// credential.
#[derive(Debug, Clone)]
pub struct ApiConfig {
    pub name: String,
    pub api: ApiType,
    pub api_key: String,
}

/// The mathematical value of an [`ApiConfig`].
pub ghost struct ApiConfigView {
    pub name: Seq<char>,
    pub api: ApiType,
    pub api_key: Seq<char>,
}

impl DeepView for ApiConfig {
    type V = ApiConfigView;

    open spec fn deep_view(&self) -> ApiConfigView {
        ApiConfigView { name: self.name@, api: self.api, api_key: self.api_key@ }
    }
}

/// The notifiers, the time in seconds after which an incident counts as
/// closed, and the sources in order of priority, highest first.
#[derive(Debug, Clone)]
pub struct GeneralConfig {
    pub apis: Vec<ApiConfig>,
    pub timeout: u64,
    pub source_priority: Vec<String>,
    pub alarm: bool,
}

} // verus!
