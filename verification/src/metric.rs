//! Metric kinds, the lifecycle states of their workers, and their names
//! on the control channel.

use crate::text::{
    decimal, decimal_string, lemma_decimal_value, law_decimal_round_trip, parse_u8, spec_parse_u8,
    str_eq,
};
use vstd::prelude::*;

pub mod cpu;
pub mod io;
pub mod memory;

verus! {

/// A sampling domain. `Unknown` stands for a name that denotes no domain.
#[derive(Clone, Copy, PartialEq, Eq, Structural, Debug, Hash)]
pub enum MetricType {
    CPU,
    Memory,
    IO,
    Unknown,
}

/// Lifecycle state of the worker of one metric kind.
#[derive(Clone, Copy, PartialEq, Eq, Structural, Debug)]
pub enum MetricState {
    Initialized,
    Running,
    Stopped,
    Disabled,
}

/// The kinds that have a worker, in registry order.
pub open spec fn kinds() -> Seq<MetricType> {
    seq![MetricType::CPU, MetricType::Memory, MetricType::IO]
}

/// Whether `k` is one of the kinds that have a worker.
pub open spec fn is_kind(k: MetricType) -> bool {
    k != MetricType::Unknown
}

/// Place of a kind in registry order.
pub open spec fn kind_index(k: MetricType) -> int {
    match k {
        MetricType::CPU => 0,
        MetricType::Memory => 1,
        MetricType::IO => 2,
        MetricType::Unknown => 3,
    }
}

pub open spec fn metric_name(k: MetricType) -> Seq<char> {
    match k {
        MetricType::CPU => "cpu"@,
        MetricType::Memory => "memory"@,
        MetricType::IO => "io"@,
        MetricType::Unknown => "none"@,
    }
}

/// The kind that a token names; `Unknown` where it names none.
pub open spec fn spec_metric(s: Seq<char>) -> MetricType {
    if s == "cpu"@ {
        MetricType::CPU
    } else if s == "memory"@ {
        MetricType::Memory
    } else if s == "io"@ {
        MetricType::IO
    } else {
        MetricType::Unknown
    }
}

pub open spec fn state_name(s: MetricState) -> Seq<char> {
    match s {
        MetricState::Initialized => "initialized"@,
        MetricState::Stopped => "stopped"@,
        MetricState::Running => "running"@,
        MetricState::Disabled => "disabled"@,
    }
}

/// The state that a token names, if it names one.
pub open spec fn spec_state(s: Seq<char>) -> Option<MetricState> {
    if s == "initialized"@ {
        Some(MetricState::Initialized)
    } else if s == "stopped"@ {
        Some(MetricState::Stopped)
    } else if s == "running"@ {
        Some(MetricState::Running)
    } else if s == "disabled"@ {
        Some(MetricState::Disabled)
    } else {
        None
    }
}

/// Every kind is in `kinds()` exactly once, at its index.
pub proof fn lemma_kinds(k: MetricType)
    ensures
        kinds().len() == 3,
        is_kind(k) <==> kinds().contains(k),
        is_kind(k) ==> 0 <= kind_index(k) < 3 && kinds()[kind_index(k)] == k,
        forall|i: int| 0 <= i < 3 ==> is_kind(#[trigger] kinds()[i]) && kind_index(kinds()[i]) == i,
{
    if is_kind(k) {
        assert(kinds()[kind_index(k)] == k);
    }
}

/// The name of a kind names that kind, and `none` names no kind.
pub proof fn law_metric_name_round_trip(k: MetricType)
    ensures
        spec_metric(metric_name(k)) == k,
{
    reveal_strlit("cpu");
    reveal_strlit("memory");
    reveal_strlit("io");
    reveal_strlit("none");
    assert("cpu"@.len() == 3 && "memory"@.len() == 6 && "io"@.len() == 2 && "none"@.len() == 4);
}

/// The name of a state names that state.
pub proof fn law_state_name_round_trip(s: MetricState)
    ensures
        spec_state(state_name(s)) == Some(s),
{
    reveal_strlit("initialized");
    reveal_strlit("stopped");
    reveal_strlit("running");
    reveal_strlit("disabled");
    assert("initialized"@.len() == 11 && "stopped"@.len() == 7 && "running"@.len() == 7
        && "disabled"@.len() == 8);
    assert("stopped"@[0] == 's' && "running"@[0] == 'r');
}

pub fn get_metric_types() -> (v: Vec<MetricType>)
    ensures
        v@ == kinds(),
{
    let mut v: Vec<MetricType> = Vec::new();
    v.push(MetricType::CPU);
    v.push(MetricType::Memory);
    v.push(MetricType::IO);
    assert(v@ =~= kinds());
    v
}

pub fn metric_to_str(metric_type: MetricType) -> (s: &'static str)
    ensures
        s@ == metric_name(metric_type),
{
    match metric_type {
        MetricType::CPU => "cpu",
        MetricType::Memory => "memory",
        MetricType::IO => "io",
        MetricType::Unknown => "none",
    }
}

pub fn str_to_metric(metric_str: &str) -> (k: MetricType)
    ensures
        k == spec_metric(metric_str@),
{
    if str_eq(metric_str, "cpu") {
        MetricType::CPU
    } else if str_eq(metric_str, "memory") {
        MetricType::Memory
    } else if str_eq(metric_str, "io") {
        MetricType::IO
    } else {
        MetricType::Unknown
    }
}

pub fn state_to_str(state: MetricState) -> (s: &'static str)
    ensures
        s@ == state_name(state),
{
    match state {
        MetricState::Initialized => "initialized",
        MetricState::Stopped => "stopped",
        MetricState::Running => "running",
        MetricState::Disabled => "disabled",
    }
}

pub fn str_to_state(metric_str: &str) -> (s: Option<MetricState>)
    ensures
        s == spec_state(metric_str@),
{
    if str_eq(metric_str, "initialized") {
        Some(MetricState::Initialized)
    } else if str_eq(metric_str, "stopped") {
        Some(MetricState::Stopped)
    } else if str_eq(metric_str, "running") {
        Some(MetricState::Running)
    } else if str_eq(metric_str, "disabled") {
        Some(MetricState::Disabled)
    } else {
        None
    }
}

/// What the control loop tells the sampling task of a worker.
#[derive(Clone, Copy, Debug, PartialEq, Eq)]
pub enum Directive {
    Stop,
    Rate(u8),
}

/// The message that carries a directive: the word `stop`, or the decimal
/// numeral of the new rate.
pub open spec fn directive_text(d: Directive) -> Seq<char> {
    match d {
        Directive::Stop => "stop"@,
        Directive::Rate(rate) => decimal(rate as nat),
    }
}

/// The directive that a message carries, if it carries one.
pub open spec fn spec_decode(message: Seq<char>) -> Option<Directive> {
    if message == "stop"@ {
        Some(Directive::Stop)
    } else {
        match spec_parse_u8(message) {
            Some(rate) => Some(Directive::Rate(rate)),
            None => None,
        }
    }
}

/// Every directive is read back from its message.
pub proof fn law_directive_round_trip(d: Directive)
    ensures
        spec_decode(directive_text(d)) == Some(d),
{
    reveal_strlit("stop");
    match d {
        Directive::Stop => {},
        Directive::Rate(rate) => {
            law_decimal_round_trip(rate);
            lemma_decimal_value(rate as nat);
            assert(decimal(rate as nat)[0] != 's');
        },
    }
}

impl Directive {
    pub fn encode(&self) -> (message: String)
        ensures
            message@ == directive_text(*self),
            spec_decode(message@) == Some(*self),
    {
        proof {
            law_directive_round_trip(*self);
        }
        match self {
            Directive::Stop => String::from_str("stop"),
            Directive::Rate(rate) => decimal_string(*rate as u64),
        }
    }

    pub fn decode(message: &str) -> (d: Option<Directive>)
        ensures
            d == spec_decode(message@),
    {
        if str_eq(message, "stop") {
            Some(Directive::Stop)
        } else {
            match parse_u8(message) {
                Some(rate) => Some(Directive::Rate(rate)),
                None => None,
            }
        }
    }
}

/// What a look at the control slot found.
#[derive(Debug, PartialEq, Eq)]
pub enum Polled {
    Message(String),
    Empty,
    Disconnected,
}

/// What the sampling task does after a look at its control slot.
#[derive(Clone, Copy, Debug, PartialEq, Eq)]
pub enum SamplerStep {
    /// Go on sampling, with this rate.
    Continue(u8),
    /// Leave the loop: the task ends.
    Exit,
    /// The slot held a message that carries no directive.
    Fault,
}

/// The next step of a task that samples at `rate`, after a look at its
/// slot: `stop` ends it, a rate is taken over, and where the slot held
/// nothing the task goes on as before.
pub open spec fn spec_sampler_step(rate: u8, found: Option<Seq<char>>) -> SamplerStep {
    match found {
        Some(message) => match spec_decode(message) {
            Some(Directive::Stop) => SamplerStep::Exit,
            Some(Directive::Rate(r)) => SamplerStep::Continue(r),
            None => SamplerStep::Fault,
        },
        None => SamplerStep::Continue(rate),
    }
}

/// The message that a look at the slot found, if it found one.
pub open spec fn found(polled: Polled) -> Option<Seq<char>> {
    match polled {
        Polled::Message(message) => Some(message@),
        _ => None,
    }
}

pub fn sampler_step(rate: u8, polled: &Polled) -> (step: SamplerStep)
    ensures
        step == spec_sampler_step(rate, found(*polled)),
{
    match polled {
        Polled::Message(message) => match Directive::decode(message.as_str()) {
            Some(Directive::Stop) => SamplerStep::Exit,
            Some(Directive::Rate(r)) => SamplerStep::Continue(r),
            None => SamplerStep::Fault,
        },
        _ => SamplerStep::Continue(rate),
    }
}

/// The sending end of a `crossbeam_channel` channel.
#[verifier::external_type_specification]
#[verifier::external_body]
#[verifier::reject_recursive_types(T)]
pub struct ExSender<T>(crossbeam_channel::Sender<T>);

/// The receiving end of a `crossbeam_channel` channel.
#[verifier::external_type_specification]
#[verifier::external_body]
#[verifier::reject_recursive_types(T)]
pub struct ExReceiver<T>(crossbeam_channel::Receiver<T>);

/// `crossbeam_channel::unbounded` makes a channel without a limit and
/// hands out its two ends. Nothing is claimed of them.
#[verifier::external_body]
fn control_channel() -> (ends: (crossbeam_channel::Sender<String>, crossbeam_channel::Receiver<String>)) {
    crossbeam_channel::unbounded::<String>()
}

/// `Sender::send` hands a message to the channel; the result says whether
/// the channel took it, which it does unless every receiver is gone. It is
/// called on the sending end of a channel without a limit only, where it
/// does not wait. Only messages that carry a directive are sent.
#[verifier::external_body]
fn channel_send(sender: &crossbeam_channel::Sender<String>, message: String) -> (taken: bool)
    requires
        spec_decode(message@) is Some,
{
    sender.send(message).is_ok()
}

/// `Receiver::try_recv` takes the oldest message off the channel without
/// waiting, or says that the channel is empty, or empty and without a
/// sender. Nothing is claimed of which it is.
#[verifier::external_body]
fn channel_try_recv(receiver: &crossbeam_channel::Receiver<String>) -> (polled: Polled) {
    match receiver.try_recv() {
        Ok(message) => Polled::Message(message),
        Err(crossbeam_channel::TryRecvError::Empty) => Polled::Empty,
        Err(crossbeam_channel::TryRecvError::Disconnected) => Polled::Disconnected,
    }
}

/// `Receiver::clone` makes one more receiving end of the same channel.
#[verifier::external_body]
fn clone_receiver(receiver: &crossbeam_channel::Receiver<String>) -> (other:
    crossbeam_channel::Receiver<String>) {
    receiver.clone()
}

/// Looks at the control slot once, without waiting, and says what the
/// sampling task does next.
pub fn poll(receiver: &crossbeam_channel::Receiver<String>, rate: u8) -> (step: SamplerStep)
    ensures
        exists|found: Option<Seq<char>>| step == spec_sampler_step(rate, found),
{
    let polled = channel_try_recv(receiver);
    let step = sampler_step(rate, &polled);
    assert(step == spec_sampler_step(rate, found(polled)));
    step
}

/// The worker of one metric kind, as the control loop holds it: the kind
/// and the two ends of the control slot of its sampling task.
pub struct Metric {
    metric_type: MetricType,
    sender: crossbeam_channel::Sender<String>,
    receiver: crossbeam_channel::Receiver<String>,
}

impl Metric {
    /// The worker of a kind, with a control slot of its own.
    pub fn new(metric_type: MetricType) -> (metric: Self)
        ensures
            metric.spec_type() == metric_type,
    {
        let (sender, receiver) = control_channel();
        Metric { metric_type, sender, receiver }
    }

    pub closed spec fn spec_type(&self) -> MetricType {
        self.metric_type
    }

    pub fn get_type(&self) -> (k: MetricType)
        ensures
            k == self.spec_type(),
    {
        self.metric_type
    }

    /// One more receiving end of the control slot, for the sampling task.
    pub fn get_receiver(&self) -> crossbeam_channel::Receiver<String> {
        clone_receiver(&self.receiver)
    }

    /// Puts the directive to stop on the control slot. The result says
    /// whether the slot took it.
    pub fn stop(&self) -> bool {
        self.send_command(Directive::Stop)
    }

    /// Puts a new rate on the control slot. The result says whether the
    /// slot took it.
    pub fn set_refresh_rate(&self, refresh_rate: u8) -> bool {
        self.send_command(Directive::Rate(refresh_rate))
    }

    /// Puts a directive on the control slot, as its message.
    pub fn send_command(&self, command: Directive) -> bool {
        let message = command.encode();
        channel_send(&self.sender, message)
    }
}

} // verus!
