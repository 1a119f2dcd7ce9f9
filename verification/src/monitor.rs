//! The control loop: it applies commands to the worker registry and says,
//! step by step, what is to be reported and what is to be done to the
//! workers.

use crate::cli::{CliCommand, Command};
use crate::config::{
    settings_of, startup_registry, Entry, MetricsConfig, MonitorConfig, Setting,
};
use crate::metric::{
    get_metric_types, is_kind, kinds, Directive, Metric, MetricState, MetricType,
};
use crate::report::{
    all_stopped, all_stopped_text, already_running, already_running_text, already_stopped,
    already_stopped_text, disabled, disabled_text, enabled_set, enabled_set_text,
    enabled_unchanged, enabled_unchanged_text, in_state, in_state_text, none_in_state,
    none_in_state_text, rate_set, rate_set_text, rate_unchanged, rate_unchanged_text,
    running_with_rate, running_with_rate_text, started, started_text,
};
use vstd::prelude::*;

verus! {

/// One step of carrying out a batch of commands. `Report` holds a finished
/// line of the response. The others are for whoever runs the tasks, to be
/// carried out in the order of the steps: `Spawn` starts the sampling task
/// of a kind, `Retune` puts a new rate on its control slot, `Halt` puts the
/// directive to stop on its control slot and then waits for the task to
/// end, `Persist` saves the settings. `Halt` and `Persist` each give one
/// more line of the response, which says how they went.
#[derive(Debug, PartialEq, Eq)]
pub enum Step {
    Report(String),
    Spawn { metric: MetricType, rate: u8 },
    Retune { metric: MetricType, rate: u8 },
    Halt { metric: MetricType },
    Persist { config: MetricsConfig },
}

/// What a step says.
pub enum StepView {
    Report(Seq<char>),
    Spawn { metric: MetricType, rate: u8 },
    Retune { metric: MetricType, rate: u8 },
    Halt { metric: MetricType },
    Persist { settings: Map<MetricType, Setting> },
}

impl View for Step {
    type V = StepView;

    open spec fn view(&self) -> StepView {
        match *self {
            Step::Report(line) => StepView::Report(line@),
            Step::Spawn { metric, rate } => StepView::Spawn { metric, rate },
            Step::Retune { metric, rate } => StepView::Retune { metric, rate },
            Step::Halt { metric } => StepView::Halt { metric },
            Step::Persist { config } => StepView::Persist { settings: config.settings() },
        }
    }
}

/// The directive that a step puts on the control slot of a worker, and the
/// kind of that worker.
pub open spec fn spec_step_directive(step: StepView) -> Option<(MetricType, Directive)> {
    match step {
        StepView::Retune { metric, rate } => Some((metric, Directive::Rate(rate))),
        StepView::Halt { metric } => Some((metric, Directive::Stop)),
        _ => None,
    }
}

pub fn step_directive(step: &Step) -> (r: Option<(MetricType, Directive)>)
    ensures
        r == spec_step_directive(step@),
{
    match step {
        Step::Retune { metric, rate } => Some((*metric, Directive::Rate(*rate))),
        Step::Halt { metric } => Some((*metric, Directive::Stop)),
        _ => None,
    }
}

/// What a sequence of steps says.
pub open spec fn views(steps: Seq<Step>) -> Seq<StepView> {
    steps.map_values(|s: Step| s@)
}

/// A registry after a command, and the steps that the command asks for.
pub struct Outcome {
    pub registry: Map<MetricType, Entry>,
    pub steps: Seq<StepView>,
}

/// A registry in which a kind is disabled exactly where its state is
/// `Disabled`.
pub open spec fn consistent(registry: Map<MetricType, Entry>) -> bool {
    forall|k: MetricType|
        is_kind(k) ==> (#[trigger] registry[k].enabled <==> registry[k].state
            != MetricState::Disabled)
}

/// `start` for kind `k`. A running worker is retuned where a rate is given
/// that differs from its setting, else it is reported as running. A
/// disabled kind stays disabled. Any other worker is started, with the
/// given rate or else with its setting. For `Unknown` nothing happens.
pub open spec fn start_outcome(
    registry: Map<MetricType, Entry>,
    k: MetricType,
    rate: Option<u8>,
) -> Outcome {
    if !is_kind(k) {
        Outcome { registry, steps: Seq::empty() }
    } else {
        let e = registry[k];
        match e.state {
            MetricState::Running => Outcome {
                registry,
                steps: match rate {
                    Some(r) => if r != e.refresh_rate {
                        seq![
                            StepView::Retune { metric: k, rate: r },
                            StepView::Report(rate_set_text(k, r)),
                        ]
                    } else {
                        seq![StepView::Report(running_with_rate_text(k, r))]
                    },
                    None => seq![StepView::Report(already_running_text(k))],
                },
            },
            MetricState::Disabled => Outcome {
                registry,
                steps: seq![StepView::Report(disabled_text(k))],
            },
            _ => {
                let r = match rate {
                    Some(r) => r,
                    None => e.refresh_rate,
                };
                Outcome {
                    registry: registry.insert(k, Entry { state: MetricState::Running, ..e }),
                    steps: seq![
                        StepView::Spawn { metric: k, rate: r },
                        StepView::Report(started_text(k, r)),
                    ],
                }
            },
        }
    }
}

/// `stop` for kind `k`. A running worker is halted and recorded as
/// stopped. A stopped one is reported as stopped, any other as disabled.
/// For `Unknown` the report is that all metrics are stopped.
pub open spec fn stop_outcome(registry: Map<MetricType, Entry>, k: MetricType) -> Outcome {
    if !is_kind(k) {
        Outcome { registry, steps: seq![StepView::Report(all_stopped_text())] }
    } else {
        let e = registry[k];
        match e.state {
            MetricState::Running => Outcome {
                registry: registry.insert(k, Entry { state: MetricState::Stopped, ..e }),
                steps: seq![StepView::Halt { metric: k }],
            },
            MetricState::Stopped => Outcome {
                registry,
                steps: seq![StepView::Report(already_stopped_text(k))],
            },
            _ => Outcome { registry, steps: seq![StepView::Report(disabled_text(k))] },
        }
    }
}

/// The reports of those of the first `n` kinds that are in state `state`,
/// in registry order.
pub open spec fn in_state_reports(
    registry: Map<MetricType, Entry>,
    state: MetricState,
    n: int,
) -> Seq<StepView>
    decreases n,
{
    if n <= 0 {
        Seq::empty()
    } else {
        let k = kinds()[n - 1];
        let before = in_state_reports(registry, state, n - 1);
        if registry[k].state == state {
            before.push(StepView::Report(in_state_text(k, state, registry[k].refresh_rate)))
        } else {
            before
        }
    }
}

/// `list`. With a state to filter by: a report for each kind in that
/// state, or one report that there is none. Without: a report of the state
/// and rate of the kind that the command names.
pub open spec fn list_outcome(registry: Map<MetricType, Entry>, command: CliCommand) -> Outcome {
    Outcome {
        registry,
        steps: match command.state {
            Some(state) => {
                let found = in_state_reports(registry, state, 3);
                if found.len() == 0 {
                    seq![StepView::Report(none_in_state_text(state))]
                } else {
                    found
                }
            },
            None => match command.metric_type {
                Some(k) => if is_kind(k) {
                    seq![
                        StepView::Report(
                            in_state_text(k, registry[k].state, registry[k].refresh_rate),
                        ),
                    ]
                } else {
                    Seq::empty()
                },
                None => Seq::empty(),
            },
        },
    }
}

/// The first half of `set`: the flag `enabled` of kind `k`. A flag that
/// differs from the setting is recorded and reported; disabling halts a
/// running worker and leaves the kind `Disabled`, enabling starts the
/// worker of a `Disabled` kind at its rate. A flag that does not differ
/// is reported as unchanged.
pub open spec fn set_enabled_outcome(
    registry: Map<MetricType, Entry>,
    k: MetricType,
    enabled: Option<bool>,
) -> Outcome {
    let e = registry[k];
    match enabled {
        None => Outcome { registry, steps: Seq::empty() },
        Some(b) => if b == e.enabled {
            Outcome { registry, steps: seq![StepView::Report(enabled_unchanged_text(k, b))] }
        } else if !b {
            Outcome {
                registry: registry.insert(
                    k,
                    Entry { enabled: false, state: MetricState::Disabled, ..e },
                ),
                steps: if e.state == MetricState::Running {
                    seq![StepView::Report(enabled_set_text(k, b)), StepView::Halt { metric: k }]
                } else {
                    seq![StepView::Report(enabled_set_text(k, b))]
                },
            }
        } else if e.state == MetricState::Disabled {
            Outcome {
                registry: registry.insert(
                    k,
                    Entry { enabled: true, state: MetricState::Running, ..e },
                ),
                steps: seq![
                    StepView::Report(enabled_set_text(k, b)),
                    StepView::Spawn { metric: k, rate: e.refresh_rate },
                    StepView::Report(started_text(k, e.refresh_rate)),
                ],
            }
        } else {
            Outcome {
                registry: registry.insert(k, Entry { enabled: true, ..e }),
                steps: seq![StepView::Report(enabled_set_text(k, b))],
            }
        },
    }
}

/// The second half of `set`: the rate of kind `k`. A rate that differs
/// from the setting is recorded and reported, and a running worker is
/// retuned. A rate that does not differ is reported as unchanged.
pub open spec fn set_rate_outcome(
    registry: Map<MetricType, Entry>,
    k: MetricType,
    rate: Option<u8>,
) -> Outcome {
    let e = registry[k];
    match rate {
        None => Outcome { registry, steps: Seq::empty() },
        Some(r) => if r == e.refresh_rate {
            Outcome { registry, steps: seq![StepView::Report(rate_unchanged_text(k, r))] }
        } else {
            Outcome {
                registry: registry.insert(k, Entry { refresh_rate: r, ..e }),
                steps: if e.state == MetricState::Running {
                    seq![
                        StepView::Retune { metric: k, rate: r },
                        StepView::Report(rate_set_text(k, r)),
                    ]
                } else {
                    seq![StepView::Report(rate_set_text(k, r))]
                },
            }
        },
    }
}

/// `set` for kind `k`: first the flag, then the rate. For `Unknown`
/// nothing happens.
pub open spec fn set_outcome(
    registry: Map<MetricType, Entry>,
    k: MetricType,
    enabled: Option<bool>,
    rate: Option<u8>,
) -> Outcome {
    if !is_kind(k) {
        Outcome { registry, steps: Seq::empty() }
    } else {
        let first = set_enabled_outcome(registry, k, enabled);
        let second = set_rate_outcome(first.registry, k, rate);
        Outcome { registry: second.registry, steps: first.steps + second.steps }
    }
}

/// `store`: the settings of the registry are to be saved.
pub open spec fn store_outcome(registry: Map<MetricType, Entry>) -> Outcome {
    Outcome { registry, steps: seq![StepView::Persist { settings: settings_of(registry) }] }
}

/// What one command does to a registry.
pub open spec fn dispatch(registry: Map<MetricType, Entry>, command: CliCommand) -> Outcome {
    match command.cmd {
        Command::Start => match command.metric_type {
            Some(k) => start_outcome(registry, k, command.refresh_rate),
            None => Outcome { registry, steps: Seq::empty() },
        },
        Command::Stop => match command.metric_type {
            Some(k) => stop_outcome(registry, k),
            None => Outcome { registry, steps: Seq::empty() },
        },
        Command::List => list_outcome(registry, command),
        Command::Configure => match command.metric_type {
            Some(k) => set_outcome(registry, k, command.enabled, command.refresh_rate),
            None => Outcome { registry, steps: Seq::empty() },
        },
        Command::Store => store_outcome(registry),
        Command::Unknown => Outcome { registry, steps: Seq::empty() },
    }
}

/// What the launch of the service does to the first `n` kinds of a
/// registry: the worker of each kind that is not disabled is started at
/// its rate, in registry order.
pub open spec fn launch_outcome(registry: Map<MetricType, Entry>, n: int) -> Outcome
    decreases n,
{
    if n <= 0 {
        Outcome { registry, steps: Seq::empty() }
    } else {
        let before = launch_outcome(registry, n - 1);
        let k = kinds()[n - 1];
        let e = before.registry[k];
        if e.state != MetricState::Disabled {
            Outcome {
                registry: before.registry.insert(k, Entry { state: MetricState::Running, ..e }),
                steps: before.steps.push(StepView::Spawn { metric: k, rate: e.refresh_rate }),
            }
        } else {
            before
        }
    }
}

/// What a batch of commands does to a registry: each command acts on the
/// registry that the commands before it left, and the steps follow one
/// another in the order of the commands.
pub open spec fn dispatch_all(registry: Map<MetricType, Entry>, commands: Seq<CliCommand>) -> Outcome
    decreases commands.len(),
{
    if commands.len() == 0 {
        Outcome { registry, steps: Seq::empty() }
    } else {
        let before = dispatch_all(registry, commands.drop_last());
        let last = dispatch(before.registry, commands.last());
        Outcome { registry: last.registry, steps: before.steps + last.steps }
    }
}

/// The steps that give a line of the response, in order: the reports, and
/// the steps whose line says how they went.
pub open spec fn line_steps(steps: Seq<StepView>) -> Seq<StepView>
    decreases steps.len(),
{
    if steps.len() == 0 {
        Seq::empty()
    } else if steps.last() is Spawn || steps.last() is Retune {
        line_steps(steps.drop_last())
    } else {
        line_steps(steps.drop_last()).push(steps.last())
    }
}

pub proof fn lemma_line_steps_concat(a: Seq<StepView>, b: Seq<StepView>)
    ensures
        line_steps(a + b) == line_steps(a) + line_steps(b),
    decreases b.len(),
{
    if b.len() == 0 {
        assert(a + b =~= a);
        assert(line_steps(a) + line_steps(b) =~= line_steps(a));
    } else {
        lemma_line_steps_concat(a, b.drop_last());
        assert((a + b).drop_last() =~= a + b.drop_last());
        assert((a + b).last() == b.last());
        if b.last() is Spawn || b.last() is Retune {
        } else {
            assert(line_steps(a + b) =~= line_steps(a) + line_steps(b));
        }
    }
}

/// At every moment the registry holds one entry, and so one state, for
/// each metric kind and for nothing else: no command changes that.
pub proof fn law_one_state_per_kind(registry: Map<MetricType, Entry>, command: CliCommand)
    requires
        forall|k: MetricType| is_kind(k) <==> #[trigger] registry.dom().contains(k),
    ensures
        forall|k: MetricType|
            is_kind(k) <==> #[trigger] dispatch(registry, command).registry.dom().contains(k),
{
}

/// No batch of commands changes for which kinds the registry holds a
/// state.
pub proof fn law_one_state_per_kind_all(registry: Map<MetricType, Entry>, commands: Seq<CliCommand>)
    requires
        forall|k: MetricType| is_kind(k) <==> #[trigger] registry.dom().contains(k),
    ensures
        forall|k: MetricType|
            is_kind(k) <==> #[trigger] dispatch_all(registry, commands).registry.dom().contains(
                k,
            ),
    decreases commands.len(),
{
    if commands.len() > 0 {
        law_one_state_per_kind_all(registry, commands.drop_last());
        law_one_state_per_kind(
            dispatch_all(registry, commands.drop_last()).registry,
            commands.last(),
        );
    }
}

/// A kind is disabled exactly where its state is `Disabled`: no command
/// changes that.
pub proof fn law_consistent(registry: Map<MetricType, Entry>, command: CliCommand)
    requires
        consistent(registry),
    ensures
        consistent(dispatch(registry, command).registry),
{
    let after = dispatch(registry, command).registry;
    assert forall|k: MetricType| is_kind(k) implies (#[trigger] after[k].enabled <==> after[k].state
        != MetricState::Disabled) by {
        assert(registry[k].enabled <==> registry[k].state != MetricState::Disabled);
    }
}

/// No batch of commands leaves a kind enabled and `Disabled`, or disabled
/// and in another state.
pub proof fn law_consistent_all(registry: Map<MetricType, Entry>, commands: Seq<CliCommand>)
    requires
        consistent(registry),
    ensures
        consistent(dispatch_all(registry, commands).registry),
    decreases commands.len(),
{
    if commands.len() > 0 {
        law_consistent_all(registry, commands.drop_last());
        law_consistent(dispatch_all(registry, commands.drop_last()).registry, commands.last());
    }
}

/// `stop` for a kind that is stopped or disabled asks for no step on any
/// worker, changes nothing, and so gives the same report however often it
/// is repeated.
pub proof fn law_stop_idempotent(registry: Map<MetricType, Entry>, k: MetricType)
    requires
        is_kind(k),
        registry[k].state == MetricState::Stopped || registry[k].state == MetricState::Disabled,
    ensures
        stop_outcome(registry, k).registry == registry,
        stop_outcome(registry, k).steps == seq![
            StepView::Report(
                if registry[k].state == MetricState::Stopped {
                    already_stopped_text(k)
                } else {
                    disabled_text(k)
                },
            ),
        ],
        stop_outcome(stop_outcome(registry, k).registry, k) == stop_outcome(registry, k),
{
}

/// `start` and then `stop` for a kind that is not disabled: the start
/// leaves its worker running, the stop halts that worker, which waits for
/// its task, and leaves it stopped.
pub proof fn law_start_then_stop(registry: Map<MetricType, Entry>, k: MetricType, rate: Option<u8>)
    requires
        is_kind(k),
        registry[k].state != MetricState::Disabled,
    ensures
        start_outcome(registry, k, rate).registry[k].state == MetricState::Running,
        stop_outcome(start_outcome(registry, k, rate).registry, k).steps == seq![
            StepView::Halt { metric: k },
        ],
        stop_outcome(start_outcome(registry, k, rate).registry, k).registry[k].state
            == MetricState::Stopped,
{
}

/// `set` with a rate and the flag `true`, then `list`, for a kind that
/// runs or is disabled: the kind is reported as running at that rate.
pub proof fn law_set_then_list(registry: Map<MetricType, Entry>, k: MetricType, rate: u8)
    requires
        is_kind(k),
        registry[k].state == MetricState::Running || (registry[k].state == MetricState::Disabled
            && !registry[k].enabled),
    ensures
        set_outcome(registry, k, Some(true), Some(rate)).registry[k].state
            == MetricState::Running,
        set_outcome(registry, k, Some(true), Some(rate)).registry[k].refresh_rate == rate,
        list_outcome(
            set_outcome(registry, k, Some(true), Some(rate)).registry,
            CliCommand {
                metric_type: Some(k),
                cmd: Command::List,
                refresh_rate: None,
                enabled: None,
                state: None,
            },
        ).steps == seq![StepView::Report(in_state_text(k, MetricState::Running, rate))],
{
}

/// The line of the response that one `start` without a rate gives for a
/// kind.
pub open spec fn start_line(registry: Map<MetricType, Entry>, k: MetricType) -> StepView {
    StepView::Report(
        match registry[k].state {
            MetricState::Running => already_running_text(k),
            MetricState::Disabled => disabled_text(k),
            _ => started_text(k, registry[k].refresh_rate),
        },
    )
}

/// A `start` for every kind gives exactly three lines of the response,
/// one for each kind, in registry order.
pub proof fn law_start_all(registry: Map<MetricType, Entry>)
    ensures
        line_steps(
            dispatch_all(registry, crate::cli::per_kind(Command::Start, None, None)).steps,
        ) == seq![
            start_line(registry, MetricType::CPU),
            start_line(registry, MetricType::Memory),
            start_line(registry, MetricType::IO),
        ],
{
    let cmds = crate::cli::per_kind(Command::Start, None, None);
    let c0 = cmds.take(0);
    let c1 = cmds.take(1);
    let c2 = cmds.take(2);
    assert(c0.len() == 0);
    assert(c1.drop_last() =~= c0 && c1.last() == cmds[0]);
    assert(c2.drop_last() =~= c1 && c2.last() == cmds[1]);
    assert(cmds.drop_last() =~= c2 && cmds.last() == cmds[2]);
    let o0 = dispatch_all(registry, c0);
    let o1 = dispatch_all(registry, c1);
    let o2 = dispatch_all(registry, c2);
    let o3 = dispatch_all(registry, cmds);
    assert(o0.registry == registry && o0.steps =~= Seq::<StepView>::empty());
    let s1 = start_outcome(registry, MetricType::CPU, None);
    let s2 = start_outcome(o1.registry, MetricType::Memory, None);
    let s3 = start_outcome(o2.registry, MetricType::IO, None);
    assert(o1.steps =~= s1.steps && o1.registry == s1.registry);
    assert(o2.steps =~= s1.steps + s2.steps && o2.registry == s2.registry);
    assert(o3.steps =~= s1.steps + s2.steps + s3.steps);
    lemma_start_line(registry, MetricType::CPU);
    lemma_start_line(o1.registry, MetricType::Memory);
    lemma_start_line(o2.registry, MetricType::IO);
    lemma_line_steps_concat(s1.steps, s2.steps);
    lemma_line_steps_concat(s1.steps + s2.steps, s3.steps);
    assert(o1.registry[MetricType::Memory] == registry[MetricType::Memory]);
    assert(o2.registry[MetricType::IO] == registry[MetricType::IO]);
}

/// A request line that holds the word `start` alone gives exactly three
/// lines of the response, one for each kind, in registry order.
pub proof fn law_start_alone_gives_three_lines(registry: Map<MetricType, Entry>, line: Seq<char>)
    requires
        crate::text::tokens(line) == seq!["start"@],
    ensures
        line_steps(
            dispatch_all(registry, crate::cli::spec_parse(crate::text::tokens(line))).steps,
        ) == seq![
            start_line(registry, MetricType::CPU),
            start_line(registry, MetricType::Memory),
            start_line(registry, MetricType::IO),
        ],
{
    crate::cli::law_start_alone(line);
    law_start_all(registry);
}

/// One `start` without a rate gives one line.
pub proof fn lemma_start_line(registry: Map<MetricType, Entry>, k: MetricType)
    requires
        is_kind(k),
    ensures
        line_steps(start_outcome(registry, k, None).steps) == seq![start_line(registry, k)],
{
    let steps = start_outcome(registry, k, None).steps;
    let none = Seq::<StepView>::empty();
    assert(line_steps(none) =~= none);
    if steps.len() == 1 {
        assert(steps.drop_last() =~= none);
        assert(steps.last() == start_line(registry, k));
        assert(line_steps(steps) =~= none.push(steps.last()));
    } else {
        let one = steps.drop_last();
        assert(steps.len() == 2);
        assert(one.last() is Spawn);
        assert(one.drop_last() =~= none);
        assert(line_steps(one) =~= none);
        assert(steps.last() == start_line(registry, k));
        assert(line_steps(steps) =~= none.push(steps.last()));
    }
}

/// What `store` hands over to be saved brings back, when a registry is
/// begun from it, the flag and the rate that each kind had.
pub proof fn law_store_then_restart(registry: Map<MetricType, Entry>, loaded: MetricsConfig)
    requires
        store_outcome(registry).steps[0] == (StepView::Persist { settings: loaded.settings() }),
    ensures
        settings_of(crate::config::initial_registry(loaded)) == settings_of(registry),
{
    assert(settings_of(crate::config::initial_registry(loaded)) =~= loaded.settings());
}

/// Appends one step.
fn push_step(steps: &mut Vec<Step>, step: Step)
    ensures
        views(final(steps)@) == views(old(steps)@).push(step@),
{
    steps.push(step);
    assert(views(steps@) =~= views(old(steps)@).push(step@));
}

/// Appends the steps of `more`.
fn push_steps(steps: &mut Vec<Step>, more: Vec<Step>)
    ensures
        views(final(steps)@) == views(old(steps)@) + views(more@),
{
    let mut more = more;
    let ghost added = more@;
    steps.append(&mut more);
    assert(views(steps@) =~= views(old(steps)@) + views(added));
}

/// The control loop's state: the worker registry, and the workers with
/// their control slots.
pub struct LinuxKernelMonitor {
    config: MonitorConfig,
    metrics: Vec<Metric>,
}

impl View for LinuxKernelMonitor {
    type V = Map<MetricType, Entry>;

    closed spec fn view(&self) -> Map<MetricType, Entry> {
        self.config@
    }
}

impl LinuxKernelMonitor {
    /// The control loop over the registry for the loaded settings, or for
    /// the default settings where none were loaded.
    pub fn init(loaded: Option<MetricsConfig>) -> (monitor: Self)
        ensures
            monitor@ == startup_registry(loaded),
            consistent(monitor@),
            loaded matches Some(config) ==> settings_of(monitor@) == config.settings(),
    {
        let config = MonitorConfig::new(loaded);
        proof {
            config.law_one_entry_per_kind();
            if let Some(c) = loaded {
                assert(settings_of(config@) =~= c.settings());
            }
        }
        let types = get_metric_types();
        let mut metrics: Vec<Metric> = Vec::new();
        let mut i: usize = 0;
        while i < types.len()
            invariant
                i <= types.len(),
                types@ == kinds(),
                metrics@.len() == i,
                forall|j: int| 0 <= j < i ==> (#[trigger] metrics@[j]).spec_type() == kinds()[j],
            decreases types.len() - i,
        {
            metrics.push(Metric::new(types[i]));
            i += 1;
        }
        LinuxKernelMonitor { config, metrics }
    }

    /// The control loop holds one worker for each kind, in registry order.
    #[verifier::type_invariant]
    spec fn has_every_worker(self) -> bool {
        &&& self.metrics@.len() == 3
        &&& forall|i: int| 0 <= i < 3 ==> (#[trigger] self.metrics@[i]).spec_type() == kinds()[i]
    }

    /// At every moment the control loop records one state for each metric
    /// kind, and none for anything else.
    pub proof fn law_records_every_kind(&self)
        ensures
            forall|k: MetricType| is_kind(k) <==> #[trigger] self@.dom().contains(k),
    {
        self.config.law_one_entry_per_kind();
    }

    /// The worker of a kind: every kind has one, and `Unknown` has none.
    pub fn get_metric(&self, metric_type: MetricType) -> (metric: Option<&Metric>)
        ensures
            metric is Some <==> is_kind(metric_type),
            metric matches Some(m) ==> m.spec_type() == metric_type,
    {
        proof {
            use_type_invariant(self);
            crate::metric::lemma_kinds(metric_type);
        }
        let mut i: usize = 0;
        while i < self.metrics.len()
            invariant
                i <= self.metrics.len(),
                self.metrics@.len() == 3,
                forall|j: int|
                    0 <= j < 3 ==> (#[trigger] self.metrics@[j]).spec_type() == kinds()[j],
                forall|j: int| 0 <= j < i ==> (#[trigger] self.metrics@[j]).spec_type() != metric_type,
            decreases self.metrics.len() - i,
        {
            if self.metrics[i].get_type() == metric_type {
                assert(metric_type == kinds()[i as int]);
                return Some(&self.metrics[i]);
            }
            i += 1;
        }
        proof {
            if is_kind(metric_type) {
                let at = crate::metric::kind_index(metric_type);
                assert(self.metrics@[at].spec_type() == kinds()[at]);
            }
        }
        None
    }

    /// Carries out the part of a step that goes over a control slot: it
    /// puts the directive of the step on the slot of the worker of its
    /// kind, and says whether the slot took it. Where the step has no
    /// directive, or names no kind, nothing is put on any slot and the
    /// result is `None`.
    pub fn signal(&self, step: &Step) -> (sent: Option<bool>)
        ensures
            sent is Some <==> (spec_step_directive(step@) matches Some((k, _)) && is_kind(k)),
    {
        match step_directive(step) {
            Some((metric, directive)) => match self.get_metric(metric) {
                Some(worker) => Some(worker.send_command(directive)),
                None => None,
            },
            None => None,
        }
    }

    /// Starts the worker of every kind that is not disabled.
    pub fn launch_metrics(&mut self) -> (steps: Vec<Step>)
        ensures
            views(steps@) == launch_outcome(old(self)@, 3).steps,
            final(self)@ == launch_outcome(old(self)@, 3).registry,
    {
        proof {
            use_type_invariant(&*self);
        }
        let mut steps: Vec<Step> = Vec::new();
        assert(views(steps@) =~= Seq::empty());
        let types = get_metric_types();
        let mut i: usize = 0;
        while i < types.len()
            invariant
                i <= types.len(),
                types@ == kinds(),
                views(steps@) == launch_outcome(old(self)@, i as int).steps,
                self.metrics@.len() == 3,
                forall|j: int|
                    0 <= j < 3 ==> (#[trigger] self.metrics@[j]).spec_type() == kinds()[j],
                self@ == launch_outcome(old(self)@, i as int).registry,
            decreases types.len() - i,
        {
            let metric_type = types[i];
            match self.config.get_state(metric_type) {
                MetricState::Disabled => {},
                _ => {
                    let rate = self.config.get_refresh_rate(metric_type);
                    push_step(&mut steps, Step::Spawn { metric: metric_type, rate });
                    self.config.set_state(metric_type, MetricState::Running);
                },
            }
            i += 1;
        }
        steps
    }

    /// The registry.
    pub fn get_config(&self) -> (c: &MonitorConfig)
        ensures
            c@ == self@,
    {
        &self.config
    }

    pub fn start_metric(&mut self, cli_command: &CliCommand) -> (steps: Vec<Step>)
        requires
            cli_command.metric_type is Some,
        ensures
            views(steps@) == start_outcome(
                old(self)@,
                cli_command.metric_type->0,
                cli_command.refresh_rate,
            ).steps,
            final(self)@ == start_outcome(
                old(self)@,
                cli_command.metric_type->0,
                cli_command.refresh_rate,
            ).registry,
    {
        proof {
            use_type_invariant(&*self);
        }
        let mut steps: Vec<Step> = Vec::new();
        assert(views(steps@) =~= Seq::empty());
        let refresh_rate = cli_command.get_refresh_rate();
        let metric_type = cli_command.get_metric_type().unwrap();
        match metric_type {
            MetricType::Unknown => {
                return steps;
            },
            _ => {},
        }
        let metric_state = self.config.get_state(metric_type);
        let current = self.config.get_refresh_rate(metric_type);
        match metric_state {
            MetricState::Running => {
                match refresh_rate {
                    Some(rate) => {
                        if current != rate {
                            push_step(&mut steps, Step::Retune { metric: metric_type, rate });
                            push_step(&mut steps, Step::Report(rate_set(metric_type, rate)));
                        } else {
                            push_step(
                                &mut steps,
                                Step::Report(running_with_rate(metric_type, rate)),
                            );
                        }
                    },
                    None => {
                        push_step(&mut steps, Step::Report(already_running(metric_type)));
                    },
                }
            },
            MetricState::Disabled => {
                push_step(&mut steps, Step::Report(disabled(metric_type)));
            },
            _ => {
                let rate = match refresh_rate {
                    Some(rate) => rate,
                    None => current,
                };
                push_step(&mut steps, Step::Spawn { metric: metric_type, rate });
                push_step(&mut steps, Step::Report(started(metric_type, rate)));
                self.config.set_state(metric_type, MetricState::Running);
            },
        }
        assert(views(steps@) =~= start_outcome(old(self)@, metric_type, refresh_rate).steps);
        steps
    }

    pub fn stop_metric(&mut self, cli_command: &CliCommand) -> (steps: Vec<Step>)
        requires
            cli_command.metric_type is Some,
        ensures
            views(steps@) == stop_outcome(old(self)@, cli_command.metric_type->0).steps,
            final(self)@ == stop_outcome(old(self)@, cli_command.metric_type->0).registry,
    {
        proof {
            use_type_invariant(&*self);
        }
        let mut steps: Vec<Step> = Vec::new();
        assert(views(steps@) =~= Seq::empty());
        let metric_type = cli_command.get_metric_type().unwrap();
        match metric_type {
            MetricType::Unknown => {
                push_step(&mut steps, Step::Report(all_stopped()));
                assert(views(steps@) =~= stop_outcome(old(self)@, metric_type).steps);
                return steps;
            },
            _ => {},
        }
        let metric_state = self.config.get_state(metric_type);
        match metric_state {
            MetricState::Running => {
                push_step(&mut steps, Step::Halt { metric: metric_type });
                self.config.set_state(metric_type, MetricState::Stopped);
            },
            MetricState::Stopped => {
                push_step(&mut steps, Step::Report(already_stopped(metric_type)));
            },
            _ => {
                push_step(&mut steps, Step::Report(disabled(metric_type)));
            },
        }
        assert(views(steps@) =~= stop_outcome(old(self)@, metric_type).steps);
        steps
    }

    pub fn metric_info(&self, cli_command: &CliCommand) -> (steps: Vec<Step>)
        requires
            cli_command.state is Some || (cli_command.metric_type matches Some(k) && is_kind(k)),
        ensures
            views(steps@) == list_outcome(self@, *cli_command).steps,
    {
        let mut steps: Vec<Step> = Vec::new();
        assert(views(steps@) =~= Seq::empty());
        match cli_command.get_state() {
            Some(state) => {
                let types = get_metric_types();
                let mut i: usize = 0;
                while i < types.len()
                    invariant
                        i <= types.len(),
                        types@ == kinds(),
                        views(steps@) == in_state_reports(self@, state, i as int),
                    decreases types.len() - i,
                {
                    let metric_type = types[i];
                    let metric_state = self.config.get_state(metric_type);
                    if metric_state == state {
                        let rate = self.config.get_refresh_rate(metric_type);
                        push_step(&mut steps, Step::Report(in_state(metric_type, state, rate)));
                    }
                    i += 1;
                }
                if steps.len() == 0 {
                    push_step(&mut steps, Step::Report(none_in_state(state)));
                    assert(views(steps@) =~= list_outcome(self@, *cli_command).steps);
                }
            },
            None => {
                let metric_type = cli_command.get_metric_type().unwrap();
                let metric_state = self.config.get_state(metric_type);
                let rate = self.config.get_refresh_rate(metric_type);
                push_step(&mut steps, Step::Report(in_state(metric_type, metric_state, rate)));
                assert(views(steps@) =~= list_outcome(self@, *cli_command).steps);
            },
        }
        steps
    }

    pub fn set_config(&mut self, cli_command: &CliCommand) -> (steps: Vec<Step>)
        requires
            cli_command.metric_type is Some,
        ensures
            views(steps@) == set_outcome(
                old(self)@,
                cli_command.metric_type->0,
                cli_command.enabled,
                cli_command.refresh_rate,
            ).steps,
            final(self)@ == set_outcome(
                old(self)@,
                cli_command.metric_type->0,
                cli_command.enabled,
                cli_command.refresh_rate,
            ).registry,
    {
        proof {
            use_type_invariant(&*self);
        }
        let mut steps: Vec<Step> = Vec::new();
        assert(views(steps@) =~= Seq::empty());
        let metric_type = cli_command.get_metric_type().unwrap();
        let refresh_rate = cli_command.get_refresh_rate();
        let enabled = cli_command.get_enabled();
        match metric_type {
            MetricType::Unknown => {
                return steps;
            },
            _ => {},
        }
        let ghost first = set_enabled_outcome(old(self)@, metric_type, enabled);

        match enabled {
            Some(flag) => {
                let metric_enabled = self.config.get_enabled(metric_type);
                let metric_state = self.config.get_state(metric_type);
                if flag != metric_enabled {
                    self.config.set_enabled(metric_type, flag);
                    push_step(&mut steps, Step::Report(enabled_set(metric_type, flag)));
                    if !flag {
                        match metric_state {
                            MetricState::Running => {
                                push_step(&mut steps, Step::Halt { metric: metric_type });
                            },
                            _ => {},
                        }
                        self.config.set_state(metric_type, MetricState::Disabled);
                    } else {
                        match metric_state {
                            MetricState::Disabled => {
                                let rate = self.config.get_refresh_rate(metric_type);
                                push_step(&mut steps, Step::Spawn { metric: metric_type, rate });
                                push_step(&mut steps, Step::Report(started(metric_type, rate)));
                                self.config.set_state(metric_type, MetricState::Running);
                            },
                            _ => {},
                        }
                    }
                } else {
                    push_step(&mut steps, Step::Report(enabled_unchanged(metric_type, flag)));
                }
            },
            None => {},
        }
        assert(self@ =~= first.registry);
        assert(views(steps@) =~= first.steps);
        let ghost second = set_rate_outcome(first.registry, metric_type, refresh_rate);

        match refresh_rate {
            Some(rate) => {
                let metric_rate = self.config.get_refresh_rate(metric_type);
                if metric_rate != rate {
                    let metric_state = self.config.get_state(metric_type);
                    self.config.set_refresh_rate(metric_type, rate);
                    match metric_state {
                        MetricState::Running => {
                            push_step(&mut steps, Step::Retune { metric: metric_type, rate });
                        },
                        _ => {},
                    }
                    push_step(&mut steps, Step::Report(rate_set(metric_type, rate)));
                } else {
                    push_step(&mut steps, Step::Report(rate_unchanged(metric_type, rate)));
                }
            },
            None => {},
        }
        assert(self@ =~= second.registry);
        assert(views(steps@) =~= first.steps + second.steps);
        steps
    }

    pub fn store_config(&self) -> (steps: Vec<Step>)
        ensures
            views(steps@) == store_outcome(self@).steps,
    {
        let mut steps: Vec<Step> = Vec::new();
        assert(views(steps@) =~= Seq::empty());
        let config = *self.config.get_config();
        push_step(&mut steps, Step::Persist { config });
        assert(views(steps@) =~= store_outcome(self@).steps);
        steps
    }

    /// Parses one request line and applies its batch of commands.
    pub fn handle_line(&mut self, line: String) -> (steps: Vec<Step>)
        ensures
            views(steps@) == dispatch_all(
                old(self)@,
                crate::cli::spec_parse(crate::text::tokens(line@)),
            ).steps,
            final(self)@ == dispatch_all(
                old(self)@,
                crate::cli::spec_parse(crate::text::tokens(line@)),
            ).registry,
    {
        proof {
            crate::cli::law_parsed_commands_well_formed(crate::text::tokens(line@));
        }
        let cli_commands = crate::cli::parse_args(line);
        self.handle_cli_commands(cli_commands)
    }

    /// Applies a batch of commands, in order, and returns the steps that
    /// carry it out.
    pub fn handle_cli_commands(&mut self, cli_commands: Vec<CliCommand>) -> (steps: Vec<Step>)
        requires
            forall|i: int| 0 <= i < cli_commands@.len() ==> (#[trigger] cli_commands@[i]).well_formed(),
        ensures
            views(steps@) == dispatch_all(old(self)@, cli_commands@).steps,
            final(self)@ == dispatch_all(old(self)@, cli_commands@).registry,
    {
        let mut steps: Vec<Step> = Vec::new();
        assert(views(steps@) =~= Seq::empty());
        let mut i: usize = 0;
        assert(cli_commands@.take(0) =~= Seq::empty());
        while i < cli_commands.len()
            invariant
                i <= cli_commands.len(),
                forall|j: int|
                    0 <= j < cli_commands@.len() ==> (#[trigger] cli_commands@[j]).well_formed(),
                views(steps@) == dispatch_all(old(self)@, cli_commands@.take(i as int)).steps,
                self@ == dispatch_all(old(self)@, cli_commands@.take(i as int)).registry,
            decreases cli_commands.len() - i,
        {
            let cli_command = &cli_commands[i];
            let ghost before = self@;
            proof {
                assert(cli_commands@[i as int].well_formed());
                assert(cli_commands@.take(i + 1).drop_last() =~= cli_commands@.take(i as int));
                assert(cli_commands@.take(i + 1).last() == *cli_command);
            }
            let more = match cli_command.get_command() {
                Command::Start => self.start_metric(cli_command),
                Command::Stop => self.stop_metric(cli_command),
                Command::List => self.metric_info(cli_command),
                Command::Configure => self.set_config(cli_command),
                Command::Store => self.store_config(),
                Command::Unknown => {
                    let none: Vec<Step> = Vec::new();
                    assert(views(none@) =~= Seq::empty());
                    none
                },
            };
            assert(views(more@) == dispatch(before, *cli_command).steps);
            assert(self@ == dispatch(before, *cli_command).registry);
            push_steps(&mut steps, more);
            i += 1;
        }
        assert(cli_commands@.take(cli_commands@.len() as int) =~= cli_commands@);
        steps
    }
}

} // verus!
