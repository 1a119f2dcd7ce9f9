//! The client side of the control channel: it checks the words that a user
//! gives and writes the request line.

use crate::text::{
    bool_str, bool_text, char_is_whitespace, decimal, decimal_string, free_of, is_whitespace,
    is_word, lemma_decimal_value, lemma_split_after_separator, lemma_split_run_first,
    lemma_tokens_word_first, split, str_eq, texts, to_chars, tokens,
};
use crate::cli::{spec_parse, CliCommand, Command};
use crate::metric::{is_kind, spec_metric};
use crate::text::{law_bool_round_trip, law_decimal_round_trip, spec_parse_u8};
use vstd::prelude::*;

verus! {

/// The names of the metrics that a request may name.
pub open spec fn is_metric_name(s: Seq<char>) -> bool {
    s == "cpu"@ || s == "memory"@ || s == "io"@
}

/// The names of the states that a request may filter by.
pub open spec fn is_state_name(s: Seq<char>) -> bool {
    s == "running"@ || s == "stopped"@ || s == "disabled"@
}

pub open spec fn invalid_metric_text(metric: Seq<char>) -> Seq<char> {
    "Invalid metric: '"@ + metric + "'. Allowed values are: [\"cpu\", \"memory\", \"io\"]"@
}

pub open spec fn invalid_state_text(state: Seq<char>) -> Seq<char> {
    "Invalid metric: '"@ + state + "'. Allowed values are: [\"running\", \"stopped\", \"disabled\"]"@
}

/// Accepts the name of a metric and turns any other word away, with a
/// message that names the word and what is allowed.
pub fn validate_metric(metric: &str) -> (r: Result<String, String>)
    ensures
        r is Ok <==> is_metric_name(metric@),
        r matches Ok(name) ==> name@ == metric@,
        r matches Err(message) ==> message@ == invalid_metric_text(metric@),
{
    if str_eq(metric, "cpu") || str_eq(metric, "memory") || str_eq(metric, "io") {
        Ok(String::from_str(metric))
    } else {
        let mut message = String::from_str("Invalid metric: '");
        message.append(metric);
        message.append("'. Allowed values are: [\"cpu\", \"memory\", \"io\"]");
        Err(message)
    }
}

/// Accepts the name of a state that a request may filter by and turns any
/// other word away, with a message that names the word and what is
/// allowed.
pub fn validate_state(state: &str) -> (r: Result<String, String>)
    ensures
        r is Ok <==> is_state_name(state@),
        r matches Ok(name) ==> name@ == state@,
        r matches Err(message) ==> message@ == invalid_state_text(state@),
{
    if str_eq(state, "running") || str_eq(state, "stopped") || str_eq(state, "disabled") {
        Ok(String::from_str(state))
    } else {
        let mut message = String::from_str("Invalid metric: '");
        message.append(state);
        message.append("'. Allowed values are: [\"running\", \"stopped\", \"disabled\"]");
        Err(message)
    }
}

/// What a user asks of the service.
#[derive(Debug, PartialEq, Eq)]
pub enum Request {
    List { state: Option<String> },
    Start { metric: Option<String>, rate: Option<u8> },
    Stop { metric: Option<String> },
    Configure { target: String, rate: Option<u8>, enabled: Option<bool> },
    Store,
}

/// Why no request line is written.
#[derive(Clone, Copy, Debug, PartialEq, Eq)]
pub enum RequestError {
    /// `start` with a rate and without a metric.
    OnlyRate,
    /// `set` with a metric and nothing to set.
    OnlyMetric,
}

/// The request line for what a user asks: the words of the command,
/// separated by single spaces, and a line feed. `start` with a rate needs a
/// metric, and `set` needs a rate or a flag.
pub open spec fn request_text(request: Request) -> Result<Seq<char>, RequestError> {
    match request {
        Request::List { state } => match state {
            Some(state) => Ok("list "@ + state@ + "\n"@),
            None => Ok("list\n"@),
        },
        Request::Start { metric, rate } => match (metric, rate) {
            (Some(metric), Some(rate)) => Ok(
                "start "@ + metric@ + " "@ + decimal(rate as nat) + "\n"@,
            ),
            (Some(metric), None) => Ok("start "@ + metric@ + "\n"@),
            (None, Some(_)) => Err(RequestError::OnlyRate),
            (None, None) => Ok("start\n"@),
        },
        Request::Stop { metric } => match metric {
            Some(metric) => Ok("stop "@ + metric@ + "\n"@),
            None => Ok("stop\n"@),
        },
        Request::Configure { target, rate, enabled } => match (rate, enabled) {
            (Some(rate), Some(enabled)) => Ok(
                "set "@ + target@ + " "@ + decimal(rate as nat) + " "@ + bool_text(enabled)
                    + "\n"@,
            ),
            (Some(rate), None) => Ok("set "@ + target@ + " "@ + decimal(rate as nat) + "\n"@),
            (None, Some(enabled)) => Ok("set "@ + target@ + " "@ + bool_text(enabled) + "\n"@),
            (None, None) => Err(RequestError::OnlyMetric),
        },
        Request::Store => Ok("store\n"@),
    }
}

/// What `request_line` gives, as text.
pub open spec fn line_text(r: Result<String, RequestError>) -> Result<Seq<char>, RequestError> {
    match r {
        Ok(line) => Ok(line@),
        Err(e) => Err(e),
    }
}

/// Writes the request line for what a user asks.
pub fn request_line(request: &Request) -> (r: Result<String, RequestError>)
    ensures
        line_text(r) == request_text(*request),
{
    match request {
        Request::List { state } => match state {
            Some(state) => {
                let mut line = String::from_str("list ");
                line.append(state.as_str());
                line.append("\n");
                Ok(line)
            },
            None => Ok(String::from_str("list\n")),
        },
        Request::Start { metric, rate } => match metric {
            Some(metric) => {
                let mut line = String::from_str("start ");
                line.append(metric.as_str());
                match rate {
                    Some(rate) => {
                        line.append(" ");
                        line.append(decimal_string(*rate as u64).as_str());
                    },
                    None => {},
                }
                line.append("\n");
                Ok(line)
            },
            None => match rate {
                Some(_) => Err(RequestError::OnlyRate),
                None => Ok(String::from_str("start\n")),
            },
        },
        Request::Stop { metric } => match metric {
            Some(metric) => {
                let mut line = String::from_str("stop ");
                line.append(metric.as_str());
                line.append("\n");
                Ok(line)
            },
            None => Ok(String::from_str("stop\n")),
        },
        Request::Configure { target, rate, enabled } => {
            if rate.is_none() && enabled.is_none() {
                return Err(RequestError::OnlyMetric);
            }
            let mut line = String::from_str("set ");
            line.append(target.as_str());
            match rate {
                Some(rate) => {
                    line.append(" ");
                    line.append(decimal_string(*rate as u64).as_str());
                },
                None => {},
            }
            match enabled {
                Some(enabled) => {
                    line.append(" ");
                    line.append(bool_str(*enabled));
                },
                None => {},
            }
            line.append("\n");
            Ok(line)
        },
        Request::Store => Ok(String::from_str("store\n")),
    }
}

/// The words, each followed by a space but the last, which is followed by
/// a line feed.
pub open spec fn spaced(words: Seq<Seq<char>>) -> Seq<char>
    decreases words.len(),
{
    if words.len() == 0 {
        seq!['\n']
    } else if words.len() == 1 {
        words[0] + seq!['\n']
    } else {
        words[0] + seq![' '] + spaced(words.drop_first())
    }
}

/// A word, or nothing.
pub open spec fn optional(word: Option<Seq<char>>) -> Seq<Seq<char>> {
    match word {
        Some(word) => seq![word],
        None => Seq::empty(),
    }
}

/// The numeral of a rate, or nothing.
pub open spec fn optional_rate(rate: Option<u8>) -> Seq<Seq<char>> {
    match rate {
        Some(rate) => seq![decimal(rate as nat)],
        None => Seq::empty(),
    }
}

/// The word of a flag, or nothing.
pub open spec fn optional_flag(flag: Option<bool>) -> Seq<Seq<char>> {
    match flag {
        Some(flag) => seq![bool_text(flag)],
        None => Seq::empty(),
    }
}

/// The text of a string, or nothing.
pub open spec fn optional_text(word: Option<String>) -> Seq<Seq<char>> {
    match word {
        Some(word) => seq![word@],
        None => Seq::empty(),
    }
}

/// The words of the request line for what a user asks.
pub open spec fn request_words(request: Request) -> Seq<Seq<char>> {
    match request {
        Request::List { state } => seq!["list"@] + optional_text(state),
        Request::Start { metric, rate } => seq!["start"@] + optional_text(metric)
            + optional_rate(rate),
        Request::Stop { metric } => seq!["stop"@] + optional_text(metric),
        Request::Configure { target, rate, enabled } => seq!["set"@, target@] + optional_rate(rate)
            + optional_flag(enabled),
        Request::Store => seq!["store"@],
    }
}

/// Words that a line keeps apart: none is empty, none holds whitespace.
pub open spec fn proper_words(words: Seq<Seq<char>>) -> bool {
    forall|i: int| 0 <= i < words.len() ==> is_word(#[trigger] words[i]) && words[i].len() > 0
}

/// A line of proper words is split into just these words.
pub proof fn lemma_tokens_of_spaced(words: Seq<Seq<char>>)
    requires
        proper_words(words),
    ensures
        tokens(spaced(words)) == words,
    decreases words.len(),
{
    let nl = seq!['\n'];
    assert(is_whitespace(nl[0]));
    assert(nl.drop_first() =~= Seq::<char>::empty());
    assert(tokens(nl.drop_first()).len() == 0);
    assert(tokens(nl) =~= Seq::<Seq<char>>::empty());
    if words.len() == 0 {
        assert(words =~= Seq::<Seq<char>>::empty());
    } else if words.len() == 1 {
        assert(is_word(words[0]) && words[0].len() > 0);
        lemma_tokens_word_first(words[0], nl);
        assert(seq![words[0]] + tokens(nl) =~= words);
    } else {
        let tail = words.drop_first();
        assert(proper_words(tail)) by {
            assert forall|i: int| 0 <= i < tail.len() implies is_word(#[trigger] tail[i])
                && tail[i].len() > 0 by {
                assert(tail[i] == words[i + 1]);
            }
        }
        lemma_tokens_of_spaced(tail);
        let rest = seq![' '] + spaced(tail);
        assert(is_whitespace(rest[0]));
        assert(rest.drop_first() =~= spaced(tail));
        assert(tokens(rest) == tokens(spaced(tail)));
        assert(is_word(words[0]) && words[0].len() > 0);
        lemma_tokens_word_first(words[0], rest);
        assert(spaced(words) =~= words[0] + rest);
        assert(seq![words[0]] + tail =~= words);
    }
}

/// The numeral of a rate and the word of a flag are proper words.
pub proof fn lemma_values_are_words(rate: u8, flag: bool)
    ensures
        is_word(decimal(rate as nat)),
        decimal(rate as nat).len() > 0,
        is_word(bool_text(flag)),
        bool_text(flag).len() > 0,
{
    lemma_decimal_value(rate as nat);
    reveal_strlit("true");
    reveal_strlit("false");
    let d = decimal(rate as nat);
    assert forall|i: int| 0 <= i < d.len() implies !is_whitespace(#[trigger] d[i]) by {
        assert(crate::text::is_digit(d[i]));
    }
}

/// The request line holds just the words of the request, where the names
/// that the user gave are proper words: the service splits the line into
/// the words that the client wrote.
pub proof fn law_request_line_words(request: Request)
    requires
        request matches Request::List { state: Some(state) } ==> is_word(state@) && state@.len()
            > 0,
        request matches Request::Start { metric: Some(metric), .. } ==> is_word(metric@)
            && metric@.len() > 0,
        request matches Request::Stop { metric: Some(metric) } ==> is_word(metric@)
            && metric@.len() > 0,
        request matches Request::Configure { target, .. } ==> is_word(target@) && target@.len()
            > 0,
    ensures
        request_text(request) matches Ok(line) ==> tokens(line) == request_words(request),
{
    reveal_strlit("list ");
    reveal_strlit("list\n");
    reveal_strlit("list");
    reveal_strlit("start ");
    reveal_strlit("start\n");
    reveal_strlit("start");
    reveal_strlit("stop ");
    reveal_strlit("stop\n");
    reveal_strlit("stop");
    reveal_strlit("set ");
    reveal_strlit("set");
    reveal_strlit("store\n");
    reveal_strlit("store");
    reveal_strlit(" ");
    reveal_strlit("\n");
    let words = request_words(request);
    match request {
        Request::Configure { target, rate, enabled } => {
            if let Some(r) = rate {
                lemma_values_are_words(r, true);
            }
            if let Some(b) = enabled {
                lemma_values_are_words(0, b);
            }
        },
        Request::Start { metric, rate } => {
            if let Some(r) = rate {
                lemma_values_are_words(r, true);
            }
        },
        _ => {},
    }
    if let Ok(line) = request_text(request) {
        assert(proper_words(words));
        lemma_tokens_of_spaced(words);
        lemma_spaced_unfold(words);
        assert(line =~= spaced(words));
    }
}

/// What `spaced` is for up to four words.
pub proof fn lemma_spaced_unfold(words: Seq<Seq<char>>)
    requires
        1 <= words.len() <= 4,
    ensures
        words.len() == 1 ==> spaced(words) == words[0] + seq!['\n'],
        words.len() == 2 ==> spaced(words) == words[0] + seq![' '] + words[1] + seq!['\n'],
        words.len() == 3 ==> spaced(words) == words[0] + seq![' '] + words[1] + seq![' ']
            + words[2] + seq!['\n'],
        words.len() == 4 ==> spaced(words) == words[0] + seq![' '] + words[1] + seq![' ']
            + words[2] + seq![' '] + words[3] + seq!['\n'],
    decreases words.len(),
{
    if words.len() > 1 {
        let tail = words.drop_first();
        lemma_spaced_unfold(tail);
        assert(forall|i: int| 0 <= i < tail.len() ==> tail[i] == words[i + 1]);
        if words.len() == 2 {
            assert(spaced(words) =~= words[0] + seq![' '] + words[1] + seq!['\n']);
        } else if words.len() == 3 {
            assert(spaced(words) =~= words[0] + seq![' '] + words[1] + seq![' '] + words[2]
                + seq!['\n']);
        } else {
            assert(spaced(words) =~= words[0] + seq![' '] + words[1] + seq![' '] + words[2]
                + seq![' '] + words[3] + seq!['\n']);
        }
    }
}

/// A `set` request for the name of a metric, with a rate or a flag or
/// both, is read by the service as one command to set just these for just
/// that kind.
pub proof fn law_set_request_parses(request: Request)
    requires
        request matches Request::Configure { target, rate, enabled } && is_metric_name(target@) && (
        rate is Some || enabled is Some),
    ensures
        request_text(request) matches Ok(line) && request matches Request::Configure {
            target,
            rate,
            enabled,
        } && is_kind(spec_metric(target@)) && spec_parse(tokens(line)) == seq![
            CliCommand {
                metric_type: Some(spec_metric(target@)),
                cmd: Command::Configure,
                refresh_rate: rate,
                enabled,
                state: None,
            },
        ],
{
    reveal_strlit("cpu");
    reveal_strlit("memory");
    reveal_strlit("io");
    reveal_strlit("set");
    reveal_strlit("start");
    reveal_strlit("stop");
    reveal_strlit("list");
    reveal_strlit("true");
    reveal_strlit("false");
    if let Request::Configure { target, rate, enabled } = request {
        assert(is_word(target@) && target@.len() > 0);
        law_request_line_words(request);
        let words = request_words(request);
        let args = words.skip(1);
        assert(args[0] == target@);
        if let Some(r) = rate {
            law_decimal_round_trip(r);
            assert(args[1] == decimal(r as nat));
        }
        if let Some(b) = enabled {
            law_bool_round_trip(b);
            let word = bool_text(b);
            assert(!crate::text::is_digit(word[0]) && word[0] != '+');
            assert(spec_parse_u8(word) is None) by {
                assert(crate::text::unsigned_part(word) == word);
            }
            assert(args[args.len() - 1] == word);
        }
        assert(words[0] == "set"@);
        assert("set"@.len() == 3 && "start"@.len() == 5 && "stop"@.len() == 4 && "list"@.len()
            == 4);
        assert(crate::cli::spec_command(words[0]) == Command::Configure);
        assert(spec_parse(words) == crate::cli::spec_parse_set(args));
        let none = (None::<u8>, None::<bool>);
        match (rate, enabled) {
            (Some(r), Some(b)) => {
                assert(args.len() == 3);
                assert(crate::cli::with_value(none, args[1]) == (rate, None::<bool>));
                assert(crate::cli::with_value((rate, None::<bool>), args[2]) == (rate, enabled));
            },
            (Some(r), None) => {
                assert(args.len() == 2);
                assert(crate::cli::with_value(none, args[1]) == (rate, None::<bool>));
            },
            (None, Some(b)) => {
                assert(args.len() == 2);
                assert(crate::cli::with_value(none, args[1]) == (None::<u8>, enabled));
            },
            (None, None) => {},
        }
        assert(crate::cli::set_values(args) == (rate, enabled));
    }
}

/// The semicolon, as what separates the lines of a response.
pub open spec fn semicolon() -> spec_fn(char) -> bool {
    |c: char| c == ';'
}

/// `s` without the whitespace at its start.
pub open spec fn trim_start(s: Seq<char>) -> Seq<char>
    decreases s.len(),
{
    if s.len() > 0 && is_whitespace(s[0]) {
        trim_start(s.drop_first())
    } else {
        s
    }
}

/// `s` without the whitespace at its end.
pub open spec fn trim_end(s: Seq<char>) -> Seq<char>
    decreases s.len(),
{
    if s.len() > 0 && is_whitespace(s.last()) {
        trim_end(s.drop_last())
    } else {
        s
    }
}

/// The lines that a response holds: what stands between the semicolons of
/// the response without the whitespace around it, but for what is empty.
pub open spec fn response_segments(response: Seq<char>) -> Seq<Seq<char>> {
    split(trim_end(trim_start(response)), semicolon())
}

/// Takes a response apart into its lines.
pub fn response_lines(response: &str) -> (lines: Vec<String>)
    ensures
        texts(lines@) == response_segments(response@),
{
    let chars = to_chars(response);
    let n = chars.len();
    let mut start: usize = 0;
    proof {
        assert(chars@.skip(0) =~= chars@);
    }
    while start < n && char_is_whitespace(chars[start])
        invariant
            start <= n,
            n == chars@.len(),
            trim_start(chars@) == trim_start(chars@.skip(start as int)),
        decreases n - start,
    {
        proof {
            assert(chars@.skip(start as int)[0] == chars@[start as int]);
            assert(chars@.skip(start as int).drop_first() =~= chars@.skip(start + 1));
        }
        start += 1;
    }
    let ghost front = chars@.skip(start as int);
    assert(trim_start(chars@) == front) by {
        if start < n {
            assert(front[0] == chars@[start as int]);
        }
    }
    let mut end: usize = n;
    proof {
        assert(chars@.subrange(start as int, n as int) =~= front);
    }
    while end > start && char_is_whitespace(chars[end - 1])
        invariant
            start <= end <= n,
            n == chars@.len(),
            trim_end(front) == trim_end(chars@.subrange(start as int, end as int)),
        decreases end,
    {
        proof {
            let part = chars@.subrange(start as int, end as int);
            assert(part.last() == chars@[end - 1]);
            assert(part.drop_last() =~= chars@.subrange(start as int, end - 1));
        }
        end -= 1;
    }
    let ghost body = chars@.subrange(start as int, end as int);
    assert(trim_end(front) == body) by {
        if end > start {
            assert(body.last() == chars@[end - 1]);
        }
    }

    let mut lines: Vec<String> = Vec::new();
    let mut cur: String = String::new();
    let mut i: usize = start;
    proof {
        assert(body.skip(0) =~= body);
        assert(cur@ + body =~= body);
        assert(texts(lines@) + split(body, semicolon()) =~= split(body, semicolon()));
    }
    while i < end
        invariant
            start <= i <= end <= n,
            n == chars@.len(),
            body == chars@.subrange(start as int, end as int),
            free_of(cur@, semicolon()),
            split(body, semicolon()) == texts(lines@) + split(
                cur@ + body.skip(i - start),
                semicolon(),
            ),
        decreases end - i,
    {
        let c = chars[i];
        let ghost rest = body.skip(i - start);
        let ghost after = body.skip(i - start + 1);
        proof {
            assert(rest.len() > 0 && rest[0] == c);
            assert(rest.drop_first() =~= after);
            assert(seq![c] + after =~= rest);
        }
        if c == ';' {
            proof {
                lemma_split_after_separator(c, after, semicolon());
            }
            if !cur.as_str().is_empty() {
                proof {
                    lemma_split_run_first(cur@, rest, semicolon());
                    assert(texts(lines@.push(cur)) =~= texts(lines@) + seq![cur@]);
                    assert(Seq::<char>::empty() + after =~= after);
                }
                lines.push(cur);
                cur = String::new();
            } else {
                proof {
                    assert(cur@ + rest =~= rest);
                    assert(cur@ + after =~= after);
                }
            }
        } else {
            proof {
                assert(cur@.push(c) + after =~= cur@ + rest);
                assert forall|k: int| 0 <= k < cur@.push(c).len() implies !semicolon()(
                    #[trigger] cur@.push(c)[k],
                ) by {
                    if k < cur@.len() {
                        assert(cur@.push(c)[k] == cur@[k]);
                    }
                }
            }
            cur.push(c);
        }
        i += 1;
    }
    proof {
        assert(body.skip(body.len() as int) =~= Seq::<char>::empty());
        assert(cur@ + Seq::<char>::empty() =~= cur@);
    }
    if !cur.as_str().is_empty() {
        proof {
            lemma_split_run_first(cur@, Seq::<char>::empty(), semicolon());
            assert(texts(lines@.push(cur)) =~= texts(lines@) + seq![cur@]);
        }
        lines.push(cur);
    }
    lines
}

} // verus!
