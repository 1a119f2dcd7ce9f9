//! The command grammar of the control channel: one request line becomes an
//! ordered batch of commands.

use crate::metric::{
    get_metric_types, is_kind, kinds, spec_metric, spec_state, str_to_metric, str_to_state,
    MetricState, MetricType,
};
use crate::text::{
    parse_bool, parse_u8, spec_parse_bool, spec_parse_u8, str_eq, texts, tokenize, tokens,
};
use vstd::prelude::*;

verus! {

/// Where the control endpoint listens.
pub const SOCKET_PATH: &'static str = "/var/run/lkmonitor.sock";

/// What a command asks for. `Unknown` stands for a word that names no
/// command.
#[derive(Clone, Copy, Debug, PartialEq, Eq, Structural)]
pub enum Command {
    Start,
    Stop,
    List,
    Configure,
    Store,
    Unknown,
}

/// One parsed control directive.
#[derive(Clone, Copy, Debug, PartialEq, Eq)]
pub struct CliCommand {
    pub metric_type: Option<MetricType>,
    pub cmd: Command,
    pub refresh_rate: Option<u8>,
    pub enabled: Option<bool>,
    pub state: Option<MetricState>,
}

impl CliCommand {
    pub fn new(
        cmd: Command,
        metric_type: Option<MetricType>,
        refresh_rate: Option<u8>,
        enabled: Option<bool>,
        state: Option<MetricState>,
    ) -> (c: CliCommand)
        ensures
            c == (CliCommand { metric_type, cmd, refresh_rate, enabled, state }),
    {
        CliCommand { cmd, metric_type, refresh_rate, enabled, state }
    }

    pub fn get_command(&self) -> (c: Command)
        ensures
            c == self.cmd,
    {
        self.cmd
    }

    pub fn get_metric_type(&self) -> (m: Option<MetricType>)
        ensures
            m == self.metric_type,
    {
        self.metric_type
    }

    pub fn get_refresh_rate(&self) -> (r: Option<u8>)
        ensures
            r == self.refresh_rate,
    {
        self.refresh_rate
    }

    pub fn get_enabled(&self) -> (e: Option<bool>)
        ensures
            e == self.enabled,
    {
        self.enabled
    }

    pub fn get_state(&self) -> (s: Option<MetricState>)
        ensures
            s == self.state,
    {
        self.state
    }

    /// A command that the control loop can act on: `start`, `stop` and
    /// `set` name a metric; `list` carries a state to filter by, or names
    /// a kind.
    pub open spec fn well_formed(self) -> bool {
        match self.cmd {
            Command::Start | Command::Stop | Command::Configure => self.metric_type is Some,
            Command::List => self.state is Some || (self.metric_type matches Some(k) && is_kind(
                k,
            )),
            Command::Store | Command::Unknown => true,
        }
    }

    pub fn is_well_formed(&self) -> (b: bool)
        ensures
            b == self.well_formed(),
    {
        match self.cmd {
            Command::Start | Command::Stop | Command::Configure => self.metric_type.is_some(),
            Command::List => {
                if self.state.is_some() {
                    true
                } else {
                    match self.metric_type {
                        Some(MetricType::Unknown) => false,
                        Some(_) => true,
                        None => false,
                    }
                }
            },
            Command::Store | Command::Unknown => true,
        }
    }
}

/// The command that a word names.
pub open spec fn spec_command(s: Seq<char>) -> Command {
    if s == "start"@ {
        Command::Start
    } else if s == "stop"@ {
        Command::Stop
    } else if s == "list"@ {
        Command::List
    } else if s == "set"@ {
        Command::Configure
    } else if s == "store"@ {
        Command::Store
    } else {
        Command::Unknown
    }
}

/// One command of kind `cmd` for each metric kind, in registry order.
pub open spec fn per_kind(cmd: Command, refresh_rate: Option<u8>, enabled: Option<bool>) -> Seq<
    CliCommand,
> {
    Seq::new(
        3,
        |i: int|
            CliCommand {
                metric_type: Some(kinds()[i]),
                cmd,
                refresh_rate,
                enabled,
                state: None,
            },
    )
}

/// `start [metric] [rate] [enabled]`. With a metric, one command for it;
/// without, one for each kind. A rate that is no number below 256, or a
/// third word that is no boolean, spoils the line: it gives no command.
pub open spec fn spec_parse_start(args: Seq<Seq<char>>) -> Seq<CliCommand> {
    if args.len() == 0 {
        per_kind(Command::Start, None, None)
    } else if args.len() >= 2 && spec_parse_u8(args[1]) is None {
        Seq::empty()
    } else if args.len() >= 3 && spec_parse_bool(args[2]) is None {
        Seq::empty()
    } else {
        seq![
            CliCommand {
                metric_type: Some(spec_metric(args[0])),
                cmd: Command::Start,
                refresh_rate: if args.len() >= 2 {
                    spec_parse_u8(args[1])
                } else {
                    None
                },
                enabled: if args.len() >= 3 {
                    spec_parse_bool(args[2])
                } else {
                    None
                },
                state: None,
            },
        ]
    }
}

/// `stop [metric]`. With a metric, one command for it; without, one for
/// each kind.
pub open spec fn spec_parse_stop(args: Seq<Seq<char>>) -> Seq<CliCommand> {
    if args.len() == 0 {
        per_kind(Command::Stop, None, None)
    } else {
        seq![
            CliCommand {
                metric_type: Some(spec_metric(args[0])),
                cmd: Command::Stop,
                refresh_rate: None,
                enabled: None,
                state: None,
            },
        ]
    }
}

/// `list [state]`. With the name of a state, one command that filters by
/// it; otherwise one unfiltered command for each kind.
pub open spec fn spec_parse_list(args: Seq<Seq<char>>) -> Seq<CliCommand> {
    if args.len() >= 1 && spec_state(args[0]) is Some {
        seq![
            CliCommand {
                metric_type: None,
                cmd: Command::List,
                refresh_rate: None,
                enabled: None,
                state: spec_state(args[0]),
            },
        ]
    } else {
        per_kind(Command::List, None, None)
    }
}

/// The rate and the flag after one more value word: a number below 256
/// sets the rate, else a boolean sets the flag, else nothing changes.
pub open spec fn with_value(values: (Option<u8>, Option<bool>), word: Seq<char>) -> (
    Option<u8>,
    Option<bool>,
) {
    if spec_parse_u8(word) is Some {
        (spec_parse_u8(word), values.1)
    } else if spec_parse_bool(word) is Some {
        (values.0, spec_parse_bool(word))
    } else {
        values
    }
}

/// The rate and the flag that the second and third word of `args` give.
pub open spec fn set_values(args: Seq<Seq<char>>) -> (Option<u8>, Option<bool>) {
    let none = (None::<u8>, None::<bool>);
    let first = if args.len() >= 2 {
        with_value(none, args[1])
    } else {
        none
    };
    if args.len() >= 3 {
        with_value(first, args[2])
    } else {
        first
    }
}

/// `set metric [rate|enabled] [rate|enabled]`. One command for the metric
/// where at least one value was given; otherwise none.
pub open spec fn spec_parse_set(args: Seq<Seq<char>>) -> Seq<CliCommand> {
    let values = set_values(args);
    if args.len() >= 1 && (values.0 is Some || values.1 is Some) {
        seq![
            CliCommand {
                metric_type: Some(spec_metric(args[0])),
                cmd: Command::Configure,
                refresh_rate: values.0,
                enabled: values.1,
                state: None,
            },
        ]
    } else {
        Seq::empty()
    }
}

/// The batch that the words of one line stand for. The first word names
/// the command; a line without words, or with an unknown first word, gives
/// the empty batch.
pub open spec fn spec_parse(words: Seq<Seq<char>>) -> Seq<CliCommand> {
    if words.len() == 0 {
        Seq::empty()
    } else {
        match spec_command(words[0]) {
            Command::Start => spec_parse_start(words.skip(1)),
            Command::Stop => spec_parse_stop(words.skip(1)),
            Command::List => spec_parse_list(words.skip(1)),
            Command::Configure => spec_parse_set(words.skip(1)),
            Command::Store => seq![
                CliCommand {
                    metric_type: None,
                    cmd: Command::Store,
                    refresh_rate: None,
                    enabled: None,
                    state: None,
                },
            ],
            Command::Unknown => Seq::empty(),
        }
    }
}

/// How many words a parser takes from the front of its arguments.
pub open spec fn taken(len: nat, at_most: nat) -> int {
    if len < at_most {
        len as int
    } else {
        at_most as int
    }
}

pub fn get_command(cmd_str: &str) -> (c: Command)
    ensures
        c == spec_command(cmd_str@),
{
    if str_eq(cmd_str, "start") {
        Command::Start
    } else if str_eq(cmd_str, "stop") {
        Command::Stop
    } else if str_eq(cmd_str, "list") {
        Command::List
    } else if str_eq(cmd_str, "set") {
        Command::Configure
    } else if str_eq(cmd_str, "store") {
        Command::Store
    } else {
        Command::Unknown
    }
}

fn for_each_kind(cmd: Command, refresh_rate: Option<u8>, enabled: Option<bool>) -> (out: Vec<
    CliCommand,
>)
    ensures
        out@ == per_kind(cmd, refresh_rate, enabled),
{
    let types = get_metric_types();
    let mut out: Vec<CliCommand> = Vec::new();
    let mut i: usize = 0;
    while i < types.len()
        invariant
            i <= types.len(),
            types@ == kinds(),
            out@ == per_kind(cmd, refresh_rate, enabled).take(i as int),
        decreases types.len() - i,
    {
        out.push(CliCommand::new(cmd, Some(types[i]), refresh_rate, enabled, None));
        i += 1;
        assert(out@ =~= per_kind(cmd, refresh_rate, enabled).take(i as int));
    }
    assert(out@ =~= per_kind(cmd, refresh_rate, enabled));
    out
}

/// Takes the first word off `args`.
fn take_word(args: &mut Vec<String>) -> (word: String)
    requires
        old(args).len() > 0,
    ensures
        word@ == texts(old(args)@)[0],
        final(args)@ == old(args)@.skip(1),
{
    let word = args.remove(0);
    assert(args@ =~= old(args)@.skip(1));
    word
}

pub fn parse_start_command(args: &mut Vec<String>) -> (commands: Vec<CliCommand>)
    ensures
        commands@ == spec_parse_start(texts(old(args)@)),
        final(args)@ == old(args)@.skip(taken(old(args)@.len(), 3)),
{
    let ghost words = texts(old(args)@);
    let mut metric_type: Option<MetricType> = None;
    let mut refresh_rate: Option<u8> = None;
    let mut enabled: Option<bool> = None;
    let mut spoiled = false;

    if !args.is_empty() {
        let word = take_word(args);
        metric_type = Some(str_to_metric(word.as_str()));
    }
    if !args.is_empty() {
        let word = take_word(args);
        assert(word@ == words[1]);
        refresh_rate = parse_u8(word.as_str());
        if refresh_rate.is_none() {
            spoiled = true;
        }
    }
    if !args.is_empty() {
        let word = take_word(args);
        assert(word@ == words[2]);
        enabled = parse_bool(word.as_str());
        if enabled.is_none() {
            spoiled = true;
        }
    }
    assert(args@ =~= old(args)@.skip(taken(old(args)@.len(), 3)));

    if spoiled {
        Vec::new()
    } else if metric_type.is_some() {
        let mut commands: Vec<CliCommand> = Vec::new();
        commands.push(CliCommand::new(Command::Start, metric_type, refresh_rate, enabled, None));
        assert(commands@ =~= spec_parse_start(words));
        commands
    } else {
        for_each_kind(Command::Start, refresh_rate, enabled)
    }
}

pub fn parse_stop_command(args: &mut Vec<String>) -> (commands: Vec<CliCommand>)
    ensures
        commands@ == spec_parse_stop(texts(old(args)@)),
        final(args)@ == old(args)@.skip(taken(old(args)@.len(), 1)),
{
    let ghost words = texts(old(args)@);
    let mut metric_type: Option<MetricType> = None;

    if !args.is_empty() {
        let word = take_word(args);
        metric_type = Some(str_to_metric(word.as_str()));
    }
    assert(args@ =~= old(args)@.skip(taken(old(args)@.len(), 1)));

    if metric_type.is_some() {
        let mut commands: Vec<CliCommand> = Vec::new();
        commands.push(CliCommand::new(Command::Stop, metric_type, None, None, None));
        assert(commands@ =~= spec_parse_stop(words));
        commands
    } else {
        for_each_kind(Command::Stop, None, None)
    }
}

pub fn parse_list_command(args: &mut Vec<String>) -> (commands: Vec<CliCommand>)
    ensures
        commands@ == spec_parse_list(texts(old(args)@)),
        final(args)@ == old(args)@.skip(taken(old(args)@.len(), 1)),
{
    let ghost words = texts(old(args)@);
    let mut state: Option<MetricState> = None;

    if !args.is_empty() {
        let word = take_word(args);
        state = str_to_state(word.as_str());
    }
    assert(args@ =~= old(args)@.skip(taken(old(args)@.len(), 1)));

    if state.is_some() {
        let mut commands: Vec<CliCommand> = Vec::new();
        commands.push(CliCommand::new(Command::List, None, None, None, state));
        assert(commands@ =~= spec_parse_list(words));
        commands
    } else {
        for_each_kind(Command::List, None, None)
    }
}

pub fn parse_set_command(args: &mut Vec<String>) -> (commands: Vec<CliCommand>)
    ensures
        commands@ == spec_parse_set(texts(old(args)@)),
        final(args)@ == old(args)@.skip(taken(old(args)@.len(), 3)),
{
    let ghost words = texts(old(args)@);
    let mut metric_type: Option<MetricType> = None;
    let mut refresh_rate: Option<u8> = None;
    let mut enabled: Option<bool> = None;

    if !args.is_empty() {
        let word = take_word(args);
        metric_type = Some(str_to_metric(word.as_str()));
    }
    if !args.is_empty() {
        let word = take_word(args);
        assert(word@ == words[1]);
        let as_rate = parse_u8(word.as_str());
        if as_rate.is_some() {
            refresh_rate = as_rate;
        } else {
            let as_flag = parse_bool(word.as_str());
            if as_flag.is_some() {
                enabled = as_flag;
            }
        }
    }
    assert((refresh_rate, enabled) == if words.len() >= 2 {
        with_value((None, None), words[1])
    } else {
        (None, None)
    });
    if !args.is_empty() {
        let word = take_word(args);
        assert(word@ == words[2]);
        let as_rate = parse_u8(word.as_str());
        if as_rate.is_some() {
            refresh_rate = as_rate;
        } else {
            let as_flag = parse_bool(word.as_str());
            if as_flag.is_some() {
                enabled = as_flag;
            }
        }
    }
    assert((refresh_rate, enabled) == set_values(words));
    assert(args@ =~= old(args)@.skip(taken(old(args)@.len(), 3)));

    let mut commands: Vec<CliCommand> = Vec::new();
    if metric_type.is_some() && (refresh_rate.is_some() || enabled.is_some()) {
        commands.push(CliCommand::new(Command::Configure, metric_type, refresh_rate, enabled, None));
    }
    assert(commands@ =~= spec_parse_set(words));
    commands
}

/// Parses one request line into its batch of commands.
pub fn parse_args(line: String) -> (commands: Vec<CliCommand>)
    ensures
        commands@ == spec_parse(tokens(line@)),
{
    let mut args = tokenize(line.as_str());
    if args.is_empty() {
        return Vec::new();
    }
    let ghost words = texts(args@);
    let word = take_word(&mut args);
    assert(texts(args@) =~= words.skip(1));
    match get_command(word.as_str()) {
        Command::Start => parse_start_command(&mut args),
        Command::Stop => parse_stop_command(&mut args),
        Command::List => parse_list_command(&mut args),
        Command::Configure => parse_set_command(&mut args),
        Command::Store => {
            let mut commands: Vec<CliCommand> = Vec::new();
            commands.push(CliCommand::new(Command::Store, None, None, None, None));
            assert(commands@ =~= spec_parse(words));
            commands
        },
        Command::Unknown => Vec::new(),
    }
}

/// Every command of a parsed batch is one that the control loop can act
/// on.
pub proof fn law_parsed_commands_well_formed(words: Seq<Seq<char>>)
    ensures
        forall|i: int|
            0 <= i < spec_parse(words).len() ==> (#[trigger] spec_parse(words)[i]).well_formed(),
{
    crate::metric::lemma_kinds(MetricType::CPU);
}

/// A line that holds the word `start` alone asks for one start of each
/// kind, in registry order, without a rate.
pub proof fn law_start_alone(line: Seq<char>)
    requires
        tokens(line) == seq!["start"@],
    ensures
        spec_parse(tokens(line)) == per_kind(Command::Start, None, None),
        spec_parse(tokens(line)).len() == 3,
        forall|i: int|
            0 <= i < 3 ==> (#[trigger] spec_parse(tokens(line))[i]).metric_type == Some(
                kinds()[i],
            ),
{
    reveal_strlit("start");
    assert(tokens(line).skip(1) =~= Seq::<Seq<char>>::empty());
}

/// Where both value words of `set` are numbers, the second one decides the
/// rate, and the flag stays unset.
pub proof fn law_set_second_number_wins(args: Seq<Seq<char>>)
    requires
        args.len() == 3,
        spec_parse_u8(args[1]) is Some,
        spec_parse_u8(args[2]) is Some,
    ensures
        spec_parse_set(args) == seq![
            CliCommand {
                metric_type: Some(spec_metric(args[0])),
                cmd: Command::Configure,
                refresh_rate: spec_parse_u8(args[2]),
                enabled: None,
                state: None,
            },
        ],
{
}

/// Why a request is turned away before it is parsed.
#[derive(Clone, Copy, Debug, PartialEq, Eq)]
pub enum CliError {
    /// The peer closed the connection before it sent anything.
    EmptyRequest,
}

/// A request is turned away exactly where nothing was read.
pub fn check_request(line: &str) -> (r: Result<(), CliError>)
    ensures
        r is Err <==> line@.len() == 0,
        r is Err ==> r == Err::<(), CliError>(CliError::EmptyRequest),
{
    if line.is_empty() {
        Err(CliError::EmptyRequest)
    } else {
        Ok(())
    }
}

/// The lines that are not empty, joined by `;`.
pub open spec fn joined(lines: Seq<Seq<char>>) -> Seq<char>
    decreases lines.len(),
{
    if lines.len() == 0 {
        Seq::empty()
    } else {
        let before = joined(lines.drop_last());
        if lines.last().len() == 0 {
            before
        } else if before.len() == 0 {
            lines.last()
        } else {
            before + ";"@ + lines.last()
        }
    }
}

/// The response to one request: its lines that are not empty, joined by
/// `;`, and a line feed at the end.
pub open spec fn framed(lines: Seq<Seq<char>>) -> Seq<char> {
    joined(lines) + "\n"@
}

/// Frames the lines of a response for the wire.
pub fn frame_response(lines: &Vec<String>) -> (response: String)
    ensures
        response@ == framed(texts(lines@)),
{
    let mut response = String::new();
    let mut i: usize = 0;
    assert(texts(lines@).take(0) =~= Seq::empty());
    while i < lines.len()
        invariant
            i <= lines.len(),
            response@ == joined(texts(lines@).take(i as int)),
        decreases lines.len() - i,
    {
        let line = lines[i].as_str();
        proof {
            let upto = texts(lines@).take(i + 1);
            assert(upto.drop_last() =~= texts(lines@).take(i as int));
            assert(upto.last() == line@);
        }
        if !line.is_empty() {
            if !response.as_str().is_empty() {
                response.append(";");
            }
            response.append(line);
        }
        i += 1;
    }
    assert(texts(lines@).take(lines@.len() as int) =~= texts(lines@));
    response.append("\n");
    response
}

} // verus!
