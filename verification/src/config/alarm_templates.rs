//! Named templates that assign receivers and webhooks to alarms.
use vstd::prelude::*;
use crate::name_map::NameMap;
use crate::text::clone_names;

verus! {

/// What a template says about one target: either receivers of a notifier,
/// each field of which may be left undefined, or a list of webhook addresses.
#[derive(Debug)]
pub enum AlarmTemplateReceiver {
    Api { members: Option<Vec<String>>, groups: Option<Vec<String>>, vehicles: Option<Vec<String>> },
    Webhooks(Vec<String>),
}

/// The mathematical value of an [`AlarmTemplateReceiver`].
pub ghost enum TemplateReceiverView {
    Api {
        members: Option<Seq<Seq<char>>>,
        groups: Option<Seq<Seq<char>>>,
        vehicles: Option<Seq<Seq<char>>>,
    },
    Webhooks(Seq<Seq<char>>),
}

impl DeepView for AlarmTemplateReceiver {
    type V = TemplateReceiverView;

    open spec fn deep_view(&self) -> TemplateReceiverView {
        match self {
            AlarmTemplateReceiver::Api { members, groups, vehicles } => TemplateReceiverView::Api {
                members: members.deep_view(),
                groups: groups.deep_view(),
                vehicles: vehicles.deep_view(),
            },
            AlarmTemplateReceiver::Webhooks(urls) => TemplateReceiverView::Webhooks(
                urls.deep_view(),
            ),
        }
    }
}

/// A copy of an optional list of names.
fn clone_optional_names(names: &Option<Vec<String>>) -> (out: Option<Vec<String>>)
    ensures
        out.deep_view() == names.deep_view(),
{
    match names {
        Some(list) => Some(clone_names(list)),
        None => None,
    }
}

impl Clone for AlarmTemplateReceiver {
    fn clone(&self) -> (out: Self)
        ensures
            out.deep_view() == self.deep_view(),
    {
        match self {
            AlarmTemplateReceiver::Api { members, groups, vehicles } => AlarmTemplateReceiver::Api {
                members: clone_optional_names(members),
                groups: clone_optional_names(groups),
                vehicles: clone_optional_names(vehicles),
            },
            AlarmTemplateReceiver::Webhooks(urls) => AlarmTemplateReceiver::Webhooks(
                clone_names(urls),
            ),
        }
    }
}

/// One template: what it says about each target it names.
#[derive(Debug, Clone)]
pub struct AlarmTemplateConfig {
    pub apis: NameMap<AlarmTemplateReceiver>,
}

/// The mathematical value of an [`AlarmTemplateConfig`]: its targets in
/// order, each with what the template says about it.
pub ghost struct TemplateView {
    pub targets: Seq<Seq<char>>,
    pub receivers: Seq<TemplateReceiverView>,
}

impl DeepView for AlarmTemplateConfig {
    type V = TemplateView;

    open spec fn deep_view(&self) -> TemplateView {
        TemplateView { targets: self.apis.names(), receivers: self.apis.values() }
    }
}

/// All templates by name.
#[derive(Debug, Clone)]
pub struct AlarmTemplates {
    pub templates: NameMap<AlarmTemplateConfig>,
}

} // verus!
