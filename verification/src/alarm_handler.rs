//! Arbitration of each incoming alarm against the last dispatched one, the
//! resolution of its receivers from templates, and the plan of its delivery.
use vstd::prelude::*;
use crate::alarm::{with_template, Alarm, AlarmView};
use crate::alarm::receivers_of;
use crate::apis::divera_v2::divera_alarm;
use crate::apis::telegram::{message_text, send_message_url};
use crate::apis::{notifier_of, notifier_requests, Notifier, NotifierView, Request, RequestView};
use crate::config::general::ApiType;
use crate::config::alarm_templates::{AlarmTemplateConfig, AlarmTemplates, TemplateView};
use crate::config::general::{ApiConfigView, GeneralConfig};
use crate::name_map::{first_index, is_first_at, lemma_first_index, position_of, NameMap};
use crate::text::clone_names;

verus! {

/// What an incoming alarm is, held against the last dispatched alarm.
#[derive(Debug, Clone, Copy, PartialEq, Eq, Structural)]
pub enum AlarmType {
    /// A new incident: every target is triggered.
    FirstAlarm,
    /// News of the running incident: every target is updated.
    UpdateAlarm,
    /// A report from a lesser source while the incident runs: nothing is sent.
    DropAlarm,
}

/// Nanoseconds in a second.
pub const NANOS_PER_SECOND: u64 = 1_000_000_000;

/// The nanoseconds from `old_time` to `new_time`; none where the clock
/// readings are the other way round.
pub open spec fn elapsed(new_time: u64, old_time: u64) -> int {
    if new_time >= old_time {
        new_time - old_time
    } else {
        0
    }
}

/// Whether the incident raised at `old_time` is still running at `new_time`,
/// with a timeout of `timeout` seconds.
pub open spec fn incident_running(new_time: u64, old_time: u64, timeout: u64) -> bool {
    elapsed(new_time, old_time) < timeout * NANOS_PER_SECOND
}

/// The rank of a source: its first position in the priority list, lowest
/// first; none where the list does not name it.
pub open spec fn rank(priority: Seq<Seq<char>>, origin: Seq<char>) -> Option<int> {
    if priority.contains(origin) {
        Some(first_index(priority, origin))
    } else {
        None
    }
}

/// The class of `new` while the incident of `old` is still running.
pub open spec fn classified_by_rank(
    new: AlarmView,
    old: AlarmView,
    priority: Seq<Seq<char>>,
) -> AlarmType {
    match (rank(priority, new.origin), rank(priority, old.origin)) {
        (Some(n), Some(o)) => if n > o {
            AlarmType::DropAlarm
        } else {
            AlarmType::UpdateAlarm
        },
        _ => AlarmType::UpdateAlarm,
    }
}

/// The class of `new` against the last dispatched alarm, if there is one.
pub open spec fn classified(
    new: AlarmView,
    last: Option<AlarmView>,
    timeout: u64,
    priority: Seq<Seq<char>>,
) -> AlarmType {
    match last {
        None => AlarmType::FirstAlarm,
        Some(old) => if incident_running(new.time, old.time, timeout) {
            classified_by_rank(new, old, priority)
        } else {
            AlarmType::FirstAlarm
        },
    }
}

/// Classifies `new_alarm` against the alarm that was dispatched last.
pub fn compare_alarms(new_alarm: &Alarm, old_alarm: &Alarm, config: &GeneralConfig) -> (kind:
    AlarmType)
    ensures
        kind == classified(
            new_alarm@,
            Some(old_alarm@),
            config.timeout,
            config.source_priority.deep_view(),
        ),
{
    let passed: u64 = if new_alarm.time >= old_alarm.time {
        new_alarm.time - old_alarm.time
    } else {
        0
    };
    let limit: u128 = (config.timeout as u128) * (NANOS_PER_SECOND as u128);
    if (passed as u128) < limit {
        let new_rank = position_of(&config.source_priority, new_alarm.origin.as_str());
        let old_rank = position_of(&config.source_priority, old_alarm.origin.as_str());
        proof {
            let priority = config.source_priority.deep_view();
            if priority.contains(new_alarm.origin@) {
                lemma_first_index(priority, new_alarm.origin@);
            }
            if priority.contains(old_alarm.origin@) {
                lemma_first_index(priority, old_alarm.origin@);
            }
        }
        match (new_rank, old_rank) {
            (Some(n), Some(o)) => {
                if n > o {
                    AlarmType::DropAlarm
                } else {
                    AlarmType::UpdateAlarm
                }
            },
            _ => AlarmType::UpdateAlarm,
        }
    } else {
        AlarmType::FirstAlarm
    }
}

/// Classifies `new_alarm` against the last dispatched alarm, if any.
pub fn classify(new_alarm: &Alarm, last: Option<&Alarm>, config: &GeneralConfig) -> (kind:
    AlarmType)
    ensures
        kind == classified(
            new_alarm@,
            match last {
                Some(old) => Some(old@),
                None => None,
            },
            config.timeout,
            config.source_priority.deep_view(),
        ),
{
    match last {
        Some(old_alarm) => compare_alarms(new_alarm, old_alarm, config),
        None => AlarmType::FirstAlarm,
    }
}

/// With no alarm dispatched before, every alarm is a first alarm.
pub proof fn lemma_first_without_history(new: AlarmView, timeout: u64, priority: Seq<Seq<char>>)
    ensures
        classified(new, None, timeout, priority) == AlarmType::FirstAlarm,
{
}

/// Once the timeout has passed since the last alarm, every alarm is a first
/// alarm, whatever the ranks of the two sources.
pub proof fn lemma_first_after_timeout(
    new: AlarmView,
    old: AlarmView,
    timeout: u64,
    priority: Seq<Seq<char>>,
)
    requires
        new.time - old.time >= timeout * NANOS_PER_SECOND,
    ensures
        classified(new, Some(old), timeout, priority) == AlarmType::FirstAlarm,
{
}

/// With two sources in the priority list and the incident still running, an
/// alarm of the lesser source after one of the higher is dropped, an alarm of
/// the higher source after one of the lesser is an update, and so is an alarm
/// of the same source.
pub proof fn lemma_two_sources(
    new: AlarmView,
    old: AlarmView,
    timeout: u64,
    high: Seq<char>,
    low: Seq<char>,
)
    requires
        high != low,
        incident_running(new.time, old.time, timeout),
    ensures
        new.origin == low && old.origin == high ==> classified(
            new,
            Some(old),
            timeout,
            seq![high, low],
        ) == AlarmType::DropAlarm,
        new.origin == high && old.origin == low ==> classified(
            new,
            Some(old),
            timeout,
            seq![high, low],
        ) == AlarmType::UpdateAlarm,
        new.origin == old.origin ==> classified(new, Some(old), timeout, seq![high, low])
            == AlarmType::UpdateAlarm,
{
    let priority = seq![high, low];
    assert(priority[0] == high && priority[1] == low);
    assert(is_first_at(priority, high, 0));
    assert(is_first_at(priority, low, 1));
    lemma_first_index(priority, high);
    lemma_first_index(priority, low);
}

/// A source that the priority list does not name never causes a drop.
pub proof fn lemma_unranked_never_dropped(
    new: AlarmView,
    last: Option<AlarmView>,
    timeout: u64,
    priority: Seq<Seq<char>>,
)
    requires
        !priority.contains(new.origin) || (last is Some && !priority.contains(last->0.origin)),
    ensures
        classified(new, last, timeout, priority) != AlarmType::DropAlarm,
{
}

/// The name of the template that is applied to every alarm before any other.
pub open spec fn default_template() -> Seq<char> {
    "default"@
}

/// The alarm after the first `n` entries of `template` were applied in order.
pub open spec fn with_entries(alarm: AlarmView, template: TemplateView, n: int) -> AlarmView
    decreases n,
{
    if n <= 0 {
        alarm
    } else {
        with_template(
            with_entries(alarm, template, n - 1),
            template.targets[n - 1],
            template.receivers[n - 1],
        )
    }
}

/// The alarm after every entry of `template` was applied in order.
pub open spec fn with_whole_template(alarm: AlarmView, template: TemplateView) -> AlarmView {
    with_entries(alarm, template, template.targets.len() as int)
}

/// The alarm after the templates named by the first `n` of `names` were
/// applied in order; a name that `templates` does not hold is passed over.
pub open spec fn with_named(
    alarm: AlarmView,
    templates: Map<Seq<char>, TemplateView>,
    names: Seq<Seq<char>>,
    n: int,
) -> AlarmView
    decreases n,
{
    if n <= 0 {
        alarm
    } else {
        let before = with_named(alarm, templates, names, n - 1);
        if templates.contains_key(names[n - 1]) {
            with_whole_template(before, templates[names[n - 1]])
        } else {
            before
        }
    }
}

/// The alarm with its receivers resolved: the default template first, then
/// the templates that the alarm names, in the order in which it names them.
/// There is no such alarm where the default template is missing.
pub open spec fn resolved(alarm: AlarmView, templates: Map<Seq<char>, TemplateView>) -> Option<
    AlarmView,
> {
    if templates.contains_key(default_template()) {
        Some(
            with_named(
                with_whole_template(alarm, templates[default_template()]),
                templates,
                alarm.template_names,
                alarm.template_names.len() as int,
            ),
        )
    } else {
        None
    }
}

/// Applying templates never changes which templates an alarm names.
pub proof fn lemma_entries_keep_template_names(alarm: AlarmView, template: TemplateView, n: int)
    ensures
        with_entries(alarm, template, n).template_names == alarm.template_names,
    decreases n,
{
    if n > 0 {
        lemma_entries_keep_template_names(alarm, template, n - 1);
    }
}

/// Applies every entry of `template` to `alarm`, in order.
pub fn apply_whole_template(alarm: &mut Alarm, template: &AlarmTemplateConfig)
    ensures
        final(alarm)@ == with_whole_template(old(alarm)@, template.deep_view()),
        old(alarm).receiver.wf() ==> final(alarm).receiver.wf(),
{
    let ghost start = alarm@;
    let ghost start_wf = alarm.receiver.wf();
    let n = template.apis.len();
    let mut i: usize = 0;
    while i < n
        invariant
            i <= n,
            n == template.apis.names().len(),
            n == template.apis.values().len(),
            alarm@ == with_entries(start, template.deep_view(), i as int),
            start_wf ==> alarm.receiver.wf(),
        decreases n - i,
    {
        let target = template.apis.name_at(i).clone();
        let entry = template.apis.value_at(i).clone();
        alarm.apply_template(target, entry);
        i += 1;
    }
}

/// Resolves the receivers of `alarm` from `templates`. Returns whether the
/// default template exists; where it does not, the alarm stays as it was.
pub fn resolve_templates(alarm: &mut Alarm, templates: &AlarmTemplates) -> (found: bool)
    ensures
        found == resolved(old(alarm)@, templates.templates@) is Some,
        found ==> final(alarm)@ == resolved(old(alarm)@, templates.templates@)->0,
        !found ==> *final(alarm) == *old(alarm),
        old(alarm).receiver.wf() ==> final(alarm).receiver.wf(),
{
    let ghost start = alarm@;
    let ghost start_wf = alarm.receiver.wf();
    let ghost all = templates.templates@;
    match templates.templates.get("default") {
        Some(template) => {
            apply_whole_template(alarm, template);
        },
        None => {
            return false;
        },
    }
    let ghost based = alarm@;
    proof {
        lemma_entries_keep_template_names(
            start,
            all[default_template()],
            all[default_template()].targets.len() as int,
        );
    }
    let n = alarm.template_names.len();
    let mut i: usize = 0;
    while i < n
        invariant
            i <= n,
            n == start.template_names.len(),
            alarm@.template_names == start.template_names,
            all == templates.templates@,
            alarm@ == with_named(based, all, start.template_names, i as int),
            start_wf ==> alarm.receiver.wf(),
        decreases n - i,
    {
        let ghost before = alarm@;
        match templates.templates.get(alarm.template_names[i].as_str()) {
            Some(template) => {
                apply_whole_template(alarm, template);
                proof {
                    lemma_entries_keep_template_names(
                        before,
                        template.deep_view(),
                        template.deep_view().targets.len() as int,
                    );
                }
            },
            None => {},
        }
        i += 1;
    }
    true
}

/// The notifiers that the first `n` configuration entries describe, by name;
/// of two entries with one name the later counts.
pub open spec fn registry_of(apis: Seq<ApiConfigView>, n: int) -> Map<Seq<char>, NotifierView>
    decreases n,
{
    if n <= 0 {
        Map::empty()
    } else {
        registry_of(apis, n - 1).insert(apis[n - 1].name, notifier_of(apis[n - 1]))
    }
}

/// What is to be done for one target of an alarm.
#[derive(Debug)]
pub struct TargetCall {
    /// The target's name.
    pub target: String,
    /// What the target's notifier sends; none where no notifier is registered
    /// under the name.
    pub requests: Option<Vec<Request>>,
}

/// The mathematical value of a [`TargetCall`].
pub ghost struct TargetCallView {
    pub target: Seq<char>,
    pub requests: Option<Seq<RequestView>>,
}

impl DeepView for TargetCall {
    type V = TargetCallView;

    open spec fn deep_view(&self) -> TargetCallView {
        TargetCallView { target: self.target@, requests: self.requests.deep_view() }
    }
}

/// What is to be done for `target`, which depends on no other target.
pub open spec fn planned_call(
    alarm: AlarmView,
    registry: Map<Seq<char>, NotifierView>,
    kind: AlarmType,
    target: Seq<char>,
) -> TargetCallView {
    TargetCallView {
        target,
        requests: if registry.contains_key(target) {
            Some(notifier_requests(registry[target], kind, alarm))
        } else {
            None
        },
    }
}

/// What is to be done for each target of `alarm`, in the order of its
/// receiver map.
pub open spec fn planned_calls(
    alarm: AlarmView,
    registry: Map<Seq<char>, NotifierView>,
    kind: AlarmType,
) -> Seq<TargetCallView> {
    Seq::new(alarm.targets.len(), |i: int| planned_call(alarm, registry, kind, alarm.targets[i]))
}

/// What the handler decides for one alarm.
#[derive(Debug)]
pub enum Decision {
    /// The default template is missing: the configuration is invalid and
    /// the handler stops.
    Halt,
    /// The alarm is dropped: nothing is sent and it is not remembered.
    Drop,
    /// The alarm is dispatched: one call for each target, and one fetch for
    /// each webhook address, whose outcome nobody looks at.
    Dispatch { kind: AlarmType, calls: Vec<TargetCall>, webhooks: Vec<String> },
}

/// The mathematical value of a [`Decision`].
pub ghost enum DecisionView {
    Halt,
    Drop,
    Dispatch { kind: AlarmType, calls: Seq<TargetCallView>, webhooks: Seq<Seq<char>> },
}

impl DeepView for Decision {
    type V = DecisionView;

    open spec fn deep_view(&self) -> DecisionView {
        match self {
            Decision::Halt => DecisionView::Halt,
            Decision::Drop => DecisionView::Drop,
            Decision::Dispatch { kind, calls, webhooks } => DecisionView::Dispatch {
                kind: *kind,
                calls: calls.deep_view(),
                webhooks: webhooks.deep_view(),
            },
        }
    }
}

/// What is decided for an alarm whose receivers are resolved, against the
/// last dispatched alarm.
pub open spec fn decided(
    alarm: AlarmView,
    last: Option<AlarmView>,
    timeout: u64,
    priority: Seq<Seq<char>>,
    registry: Map<Seq<char>, NotifierView>,
) -> DecisionView {
    let kind = classified(alarm, last, timeout, priority);
    if kind == AlarmType::DropAlarm {
        DecisionView::Drop
    } else {
        DecisionView::Dispatch {
            kind,
            calls: planned_calls(alarm, registry, kind),
            webhooks: alarm.webhooks,
        }
    }
}

/// The consumer's state: the notifiers by name, the templates, the settings
/// and the alarm that was dispatched last.
pub struct AlarmHandler {
    pub apis: NameMap<Notifier>,
    pub alarm_templates: AlarmTemplates,
    pub last_alarm: Option<Alarm>,
    pub config: GeneralConfig,
}

impl AlarmHandler {
    /// The alarm that was dispatched last, as a value.
    pub open spec fn last(&self) -> Option<AlarmView> {
        match self.last_alarm {
            Some(alarm) => Some(alarm@),
            None => None,
        }
    }

    /// A handler with the notifiers that `config` describes and no alarm
    /// dispatched yet.
    pub fn new(config: GeneralConfig, alarm_templates: AlarmTemplates) -> (handler: Self)
        ensures
            handler.apis@ == registry_of(config.apis.deep_view(), config.apis.len() as int),
            forall|name: Seq<char>| #[trigger]
                handler.apis@.contains_key(name) ==> handler.apis@[name].name == name,
            handler.apis.wf(),
            handler.last_alarm is None,
            handler.config == config,
            handler.alarm_templates == alarm_templates,
    {
        let mut apis: NameMap<Notifier> = NameMap::new();
        let mut i: usize = 0;
        while i < config.apis.len()
            invariant
                i <= config.apis.len(),
                apis.wf(),
                apis@ == registry_of(config.apis.deep_view(), i as int),
            decreases config.apis.len() - i,
        {
            let notifier = Notifier::from_config(&config.apis[i]);
            apis.insert(config.apis[i].name.clone(), notifier);
            i += 1;
        }
        proof {
            lemma_registry_named_by_key(config.apis.deep_view(), config.apis.len() as int);
        }
        AlarmHandler { apis, alarm_templates, last_alarm: None, config }
    }

    /// What is to be done for each target of `alarm`.
    pub fn plan_calls(&self, alarm: &Alarm, kind: AlarmType) -> (calls: Vec<TargetCall>)
        ensures
            calls.deep_view() == planned_calls(alarm@, self.apis@, kind),
    {
        let mut calls: Vec<TargetCall> = Vec::new();
        let n = alarm.receiver.len();
        let mut i: usize = 0;
        while i < n
            invariant
                i <= n,
                n == alarm@.targets.len(),
                calls.len() == i,
                forall|j: int|
                    0 <= j < i ==> #[trigger] calls[j].deep_view() == planned_call(
                        alarm@,
                        self.apis@,
                        kind,
                        alarm@.targets[j],
                    ),
            decreases n - i,
        {
            let target = alarm.receiver.name_at(i).clone();
            let requests = match self.apis.get(target.as_str()) {
                Some(notifier) => Some(notifier.requests(kind, alarm)),
                None => None,
            };
            calls.push(TargetCall { target, requests });
            i += 1;
        }
        assert(calls.deep_view() =~= planned_calls(alarm@, self.apis@, kind));
        calls
    }

    /// Resolves the receivers of `alarm` and decides what is done with it.
    /// Without a default template the handler halts and the alarm stays as
    /// it was.
    pub fn decide(&self, alarm: &mut Alarm) -> (decision: Decision)
        ensures
            match resolved(old(alarm)@, self.alarm_templates.templates@) {
                Some(ready) => {
                    &&& final(alarm)@ == ready
                    &&& decision.deep_view() == decided(
                        ready,
                        self.last(),
                        self.config.timeout,
                        self.config.source_priority.deep_view(),
                        self.apis@,
                    )
                },
                None => decision.deep_view() == DecisionView::Halt && *final(alarm) == *old(alarm),
            },
            old(alarm).receiver.wf() ==> final(alarm).receiver.wf(),
    {
        if !resolve_templates(alarm, &self.alarm_templates) {
            return Decision::Halt;
        }
        let kind = classify(alarm, self.last_alarm.as_ref(), &self.config);
        match kind {
            AlarmType::DropAlarm => Decision::Drop,
            _ => {
                let calls = self.plan_calls(alarm, kind);
                let webhooks = clone_names(&alarm.webhooks);
                Decision::Dispatch { kind, calls, webhooks }
            },
        }
    }

    /// Remembers `alarm` as the alarm that was dispatched last.
    pub fn complete(&mut self, alarm: Alarm)
        ensures
            final(self).last_alarm == Some(alarm),
            final(self).apis == old(self).apis,
            final(self).alarm_templates == old(self).alarm_templates,
            final(self).config == old(self).config,
    {
        self.last_alarm = Some(alarm);
    }
}

/// What is done for one target does not depend on any other target: with two
/// registries that agree on the target, whatever else they hold or lack, the
/// call for it is the same, and where the target is registered it is served.
pub proof fn lemma_targets_independent(
    alarm: AlarmView,
    first: Map<Seq<char>, NotifierView>,
    second: Map<Seq<char>, NotifierView>,
    kind: AlarmType,
    i: int,
)
    requires
        0 <= i < alarm.targets.len(),
        first.contains_key(alarm.targets[i]),
        second.contains_key(alarm.targets[i]),
        first[alarm.targets[i]] == second[alarm.targets[i]],
    ensures
        planned_calls(alarm, first, kind)[i] == planned_calls(alarm, second, kind)[i],
        planned_calls(alarm, first, kind)[i].requests == Some(
            notifier_requests(first[alarm.targets[i]], kind, alarm),
        ),
{
}

/// A dropped alarm is never dispatched, and an alarm that is not dropped is
/// dispatched with one call for each of its targets and its own webhook
/// addresses.
pub proof fn lemma_decided_shape(
    alarm: AlarmView,
    last: Option<AlarmView>,
    timeout: u64,
    priority: Seq<Seq<char>>,
    registry: Map<Seq<char>, NotifierView>,
)
    ensures
        decided(alarm, last, timeout, priority, registry) is Drop <==> classified(
            alarm,
            last,
            timeout,
            priority,
        ) == AlarmType::DropAlarm,
        !(decided(alarm, last, timeout, priority, registry) is Halt),
        decided(alarm, last, timeout, priority, registry) is Dispatch ==> {
            &&& decided(alarm, last, timeout, priority, registry)->calls.len()
                == alarm.targets.len()
            &&& decided(alarm, last, timeout, priority, registry)->webhooks == alarm.webhooks
        },
{
}

/// Every notifier of the registry is named by the name that it stands
/// under.
pub proof fn lemma_registry_named_by_key(apis: Seq<ApiConfigView>, n: int)
    ensures
        forall|name: Seq<char>| #[trigger]
            registry_of(apis, n).contains_key(name) ==> registry_of(apis, n)[name].name == name,
    decreases n,
{
    if n > 0 {
        lemma_registry_named_by_key(apis, n - 1);
    }
}

/// A registered target is served with what was resolved for its own name:
/// for a first alarm a chat bot writes to the members of the target, with
/// its own token, and a paging platform posts the groups and vehicles of the
/// target, with its own key.
pub proof fn lemma_target_gets_own_receivers(
    alarm: AlarmView,
    apis: Seq<ApiConfigView>,
    n: int,
    target: Seq<char>,
)
    requires
        registry_of(apis, n).contains_key(target),
    ensures
        registry_of(apis, n)[target].api == ApiType::Telegram ==> planned_call(
            alarm,
            registry_of(apis, n),
            AlarmType::FirstAlarm,
            target,
        ).requests == Some(
            Seq::new(
                receivers_of(alarm, target).members.len(),
                |i: int|
                    RequestView::Get(
                        send_message_url(
                            registry_of(apis, n)[target].key,
                            receivers_of(alarm, target).members[i],
                            message_text(alarm),
                        ),
                    ),
            ),
        ),
        registry_of(apis, n)[target].api == ApiType::Divera ==> planned_call(
            alarm,
            registry_of(apis, n),
            AlarmType::FirstAlarm,
            target,
        ).requests == Some(
            seq![
                RequestView::Divera(divera_alarm(target, registry_of(apis, n)[target].key, alarm)),
            ],
        ),
{
    lemma_registry_named_by_key(apis, n);
    let notifier = registry_of(apis, n)[target];
    assert(notifier.name == target);
    if notifier.api == ApiType::Telegram {
        assert(crate::apis::trigger_requests(notifier, alarm) =~= Seq::new(
            receivers_of(alarm, target).members.len(),
            |i: int|
                RequestView::Get(
                    send_message_url(
                        notifier.key,
                        receivers_of(alarm, target).members[i],
                        message_text(alarm),
                    ),
                ),
        ));
    }
}

} // verus!
