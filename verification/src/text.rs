//! Characters and small pieces of text: whitespace, tokens, decimal
//! numerals and the two boolean words.

use vstd::prelude::*;

verus! {

/// `String::push` appends one character to the end of the string.
pub assume_specification[ String::push ](s: &mut String, ch: char)
    ensures
        final(s)@ == old(s)@.push(ch),
;

/// The characters that separate tokens: the code points that Unicode
/// gives the property White_Space.
pub open spec fn is_whitespace(c: char) -> bool {
    let u = c as u32;
    ||| 0x09 <= u <= 0x0D
    ||| u == 0x20
    ||| u == 0x85
    ||| u == 0xA0
    ||| u == 0x1680
    ||| 0x2000 <= u <= 0x200A
    ||| u == 0x2028
    ||| u == 0x2029
    ||| u == 0x202F
    ||| u == 0x205F
    ||| u == 0x3000
}

pub fn char_is_whitespace(c: char) -> (r: bool)
    ensures
        r == is_whitespace(c),
{
    let u: u32 = c as u32;
    (0x09 <= u && u <= 0x0D) || u == 0x20 || u == 0x85 || u == 0xA0 || u == 0x1680 || (0x2000 <= u
        && u <= 0x200A) || u == 0x2028 || u == 0x2029 || u == 0x202F || u == 0x205F || u == 0x3000
}

/// The whitespace characters, as what separates the tokens of a line.
pub open spec fn whitespace() -> spec_fn(char) -> bool {
    |c: char| is_whitespace(c)
}

/// No character of `s` is a separator.
pub open spec fn free_of(s: Seq<char>, sep: spec_fn(char) -> bool) -> bool {
    forall|i: int| 0 <= i < s.len() ==> !sep(#[trigger] s[i])
}

/// Length of the longest prefix of `s` that holds no separator.
pub open spec fn run_len(s: Seq<char>, sep: spec_fn(char) -> bool) -> nat
    decreases s.len(),
{
    if s.len() == 0 || sep(s[0]) {
        0
    } else {
        1 + run_len(s.drop_first(), sep)
    }
}

pub proof fn lemma_run_len_bounds(s: Seq<char>, sep: spec_fn(char) -> bool)
    ensures
        run_len(s, sep) <= s.len(),
        s.len() > 0 && !sep(s[0]) ==> run_len(s, sep) >= 1,
        free_of(s.take(run_len(s, sep) as int), sep),
        run_len(s, sep) < s.len() ==> sep(s[run_len(s, sep) as int]),
    decreases s.len(),
{
    if s.len() == 0 || sep(s[0]) {
    } else {
        let t = s.drop_first();
        lemma_run_len_bounds(t, sep);
        let n = run_len(s, sep) as int;
        assert forall|i: int| 0 <= i < n implies !sep(#[trigger] s.take(n)[i]) by {
            if i > 0 {
                assert(s.take(n)[i] == t.take(n - 1)[i - 1]);
            }
        }
        if n < s.len() {
            assert(s[n] == t[n - 1]);
        }
    }
}

/// The pieces of `s` between its separators: its maximal runs of
/// characters that are no separator, from left to right.
pub open spec fn split(s: Seq<char>, sep: spec_fn(char) -> bool) -> Seq<Seq<char>>
    decreases s.len(),
    via split_decreases
{
    if s.len() == 0 {
        Seq::empty()
    } else if sep(s[0]) {
        split(s.drop_first(), sep)
    } else {
        seq![s.take(run_len(s, sep) as int)] + split(s.skip(run_len(s, sep) as int), sep)
    }
}

#[via_fn]
proof fn split_decreases(s: Seq<char>, sep: spec_fn(char) -> bool) {
    lemma_run_len_bounds(s, sep);
}

/// A run without a separator, followed by nothing or by a separator, is
/// the first piece.
pub proof fn lemma_split_run_first(w: Seq<char>, rest: Seq<char>, sep: spec_fn(char) -> bool)
    requires
        free_of(w, sep),
        w.len() > 0,
        rest.len() > 0 ==> sep(rest[0]),
    ensures
        run_len(w + rest, sep) == w.len(),
        split(w + rest, sep) == seq![w] + split(rest, sep),
    decreases w.len(),
{
    let s = w + rest;
    assert(s[0] == w[0]);
    assert(!sep(w[0]));
    assert(run_len(s, sep) == 1 + run_len(s.drop_first(), sep));
    if w.len() == 1 {
        assert(s.drop_first() =~= rest);
        assert(run_len(rest, sep) == 0);
    } else {
        let w1 = w.drop_first();
        assert(free_of(w1, sep)) by {
            assert forall|i: int| 0 <= i < w1.len() implies !sep(#[trigger] w1[i]) by {
                assert(w1[i] == w[i + 1]);
            }
        }
        lemma_split_run_first(w1, rest, sep);
        assert(s.drop_first() =~= w1 + rest);
    }
    assert(run_len(s, sep) == w.len());
    assert(s.take(w.len() as int) =~= w);
    assert(s.skip(w.len() as int) =~= rest);
}

/// A separator in front changes nothing.
pub proof fn lemma_split_after_separator(c: char, rest: Seq<char>, sep: spec_fn(char) -> bool)
    requires
        sep(c),
    ensures
        split(seq![c] + rest, sep) == split(rest, sep),
{
    let s = seq![c] + rest;
    assert(s[0] == c);
    assert(s.drop_first() =~= rest);
}

/// Every piece is a non-empty run without a separator.
pub proof fn law_pieces_are_runs(s: Seq<char>, sep: spec_fn(char) -> bool)
    ensures
        forall|i: int|
            0 <= i < split(s, sep).len() ==> free_of(#[trigger] split(s, sep)[i], sep) && split(
                s,
                sep,
            )[i].len() > 0,
    decreases s.len(),
{
    if s.len() == 0 {
        assert(split(s, sep).len() == 0);
    } else if sep(s[0]) {
        law_pieces_are_runs(s.drop_first(), sep);
        assert(split(s, sep) == split(s.drop_first(), sep));
    } else {
        lemma_run_len_bounds(s, sep);
        let first = s.take(run_len(s, sep) as int);
        let others = split(s.skip(run_len(s, sep) as int), sep);
        law_pieces_are_runs(s.skip(run_len(s, sep) as int), sep);
        assert forall|i: int| 0 <= i < split(s, sep).len() implies free_of(
            #[trigger] split(s, sep)[i],
            sep,
        ) && split(s, sep)[i].len() > 0 by {
            if i == 0 {
                assert(split(s, sep)[0] == first);
            } else {
                assert(split(s, sep)[i] == others[i - 1]);
            }
        }
    }
}

/// Separators alone hold no piece.
pub proof fn law_separators_hold_no_piece(s: Seq<char>, sep: spec_fn(char) -> bool)
    requires
        forall|i: int| 0 <= i < s.len() ==> sep(#[trigger] s[i]),
    ensures
        split(s, sep).len() == 0,
    decreases s.len(),
{
    if s.len() > 0 {
        let t = s.drop_first();
        assert forall|i: int| 0 <= i < t.len() implies sep(#[trigger] t[i]) by {
            assert(t[i] == s[i + 1]);
        }
        law_separators_hold_no_piece(t, sep);
    }
}

/// No character of `s` is whitespace.
pub open spec fn is_word(s: Seq<char>) -> bool {
    free_of(s, whitespace())
}

/// The tokens of a line: its maximal runs of characters that are not
/// whitespace, from left to right.
pub open spec fn tokens(s: Seq<char>) -> Seq<Seq<char>> {
    split(s, whitespace())
}

/// A word followed by nothing, or by whitespace, is the first token.
pub proof fn lemma_tokens_word_first(w: Seq<char>, rest: Seq<char>)
    requires
        is_word(w),
        w.len() > 0,
        rest.len() > 0 ==> is_whitespace(rest[0]),
    ensures
        tokens(w + rest) == seq![w] + tokens(rest),
{
    lemma_split_run_first(w, rest, whitespace());
}

/// The views of a vector of strings.
pub open spec fn texts(v: Seq<String>) -> Seq<Seq<char>> {
    v.map_values(|s: String| s@)
}

/// Splits a line into its tokens.
pub fn tokenize(line: &str) -> (out: Vec<String>)
    ensures
        texts(out@) == tokens(line@),
{
    let mut out: Vec<String> = Vec::new();
    let mut cur: String = String::new();
    proof {
        assert(line@.skip(0) =~= line@);
        assert(cur@ + line@ =~= line@);
        assert(texts(out@) + tokens(line@) =~= tokens(line@));
    }
    for c in it: line.chars()
        invariant
            it.seq() == line@,
            is_word(cur@),
            tokens(line@) == texts(out@) + tokens(cur@ + line@.skip(it.index() as int)),
    {
        let ghost i = it.index() as int;
        let ghost rest = line@.skip(i);
        let ghost after = line@.skip(i + 1);
        proof {
            assert(rest.len() > 0 && rest[0] == c);
            assert(rest.drop_first() =~= after);
            assert(seq![c] + after =~= rest);
            if is_whitespace(c) {
                lemma_split_after_separator(c, after, whitespace());
            }
        }
        if char_is_whitespace(c) {
            if !cur.as_str().is_empty() {
                proof {
                    lemma_tokens_word_first(cur@, rest);
                    assert(texts(out@.push(cur)) =~= texts(out@) + seq![cur@]);
                    assert(Seq::<char>::empty() + after =~= after);
                }
                out.push(cur);
                cur = String::new();
            } else {
                proof {
                    assert(cur@ + rest =~= rest);
                    assert(cur@ + after =~= after);
                }
            }
        } else {
            proof {
                assert(cur@.push(c) + after =~= cur@ + rest);
                assert forall|k: int| 0 <= k < cur@.push(c).len() implies !whitespace()(
                    #[trigger] cur@.push(c)[k],
                ) by {
                    if k < cur@.len() {
                        assert(cur@.push(c)[k] == cur@[k]);
                    }
                }
            }
            cur.push(c);
        }
    }
    proof {
        assert(line@.skip(line@.len() as int) =~= Seq::<char>::empty());
        assert(cur@ + Seq::<char>::empty() =~= cur@);
    }
    if !cur.as_str().is_empty() {
        proof {
            lemma_tokens_word_first(cur@, Seq::<char>::empty());
            assert(texts(out@.push(cur)) =~= texts(out@) + seq![cur@]);
        }
        out.push(cur);
    }
    out
}

/// Whether two strings hold the same characters.
pub fn str_eq(a: &str, b: &str) -> (r: bool)
    ensures
        r == (a@ == b@),
{
    let x = String::from_str(a);
    let y = String::from_str(b);
    x == y
}

/// The characters of a string, one by one.
pub fn to_chars(s: &str) -> (v: Vec<char>)
    ensures
        v@ == s@,
{
    let mut v: Vec<char> = Vec::new();
    for c in it: s.chars()
        invariant
            it.seq() == s@,
            v@ == s@.take(it.index() as int),
    {
        proof {
            assert(s@.take(it.index() + 1) =~= s@.take(it.index() as int).push(c));
        }
        v.push(c);
    }
    proof {
        assert(s@.take(s@.len() as int) =~= s@);
    }
    v
}

/// The decimal digits.
pub open spec fn is_digit(c: char) -> bool {
    '0' <= c && c <= '9'
}

/// What a digit stands for; 0 for any other character.
pub open spec fn digit_value(c: char) -> nat {
    if is_digit(c) {
        (c as u32 - 48) as nat
    } else {
        0
    }
}

/// The digit that stands for `d`, below ten.
pub open spec fn digit_char(d: int) -> char {
    if d == 0 {
        '0'
    } else if d == 1 {
        '1'
    } else if d == 2 {
        '2'
    } else if d == 3 {
        '3'
    } else if d == 4 {
        '4'
    } else if d == 5 {
        '5'
    } else if d == 6 {
        '6'
    } else if d == 7 {
        '7'
    } else if d == 8 {
        '8'
    } else {
        '9'
    }
}

pub open spec fn all_digits(s: Seq<char>) -> bool {
    forall|i: int| 0 <= i < s.len() ==> is_digit(#[trigger] s[i])
}

/// The number that a run of digits denotes in base ten.
pub open spec fn digits_value(s: Seq<char>) -> nat
    decreases s.len(),
{
    if s.len() == 0 {
        0
    } else {
        digits_value(s.drop_last()) * 10 + digit_value(s.last())
    }
}

/// The shortest decimal numeral of `n`.
pub open spec fn decimal(n: nat) -> Seq<char>
    decreases n,
{
    if n < 10 {
        seq![digit_char(n as int)]
    } else {
        decimal(n / 10).push(digit_char((n % 10) as int))
    }
}

/// A numeral without its optional leading plus sign.
pub open spec fn unsigned_part(s: Seq<char>) -> Seq<char> {
    if s.len() > 0 && s[0] == '+' {
        s.drop_first()
    } else {
        s
    }
}

/// The number below 256 that a token denotes: an optional plus sign, then
/// one or more digits and nothing else.
pub open spec fn spec_parse_u8(s: Seq<char>) -> Option<u8> {
    let d = unsigned_part(s);
    if d.len() > 0 && all_digits(d) && digits_value(d) <= 255 {
        Some(digits_value(d) as u8)
    } else {
        None
    }
}

/// The boolean that a token denotes: `true` or `false`, spelled so.
pub open spec fn spec_parse_bool(s: Seq<char>) -> Option<bool> {
    if s == "true"@ {
        Some(true)
    } else if s == "false"@ {
        Some(false)
    } else {
        None
    }
}

pub open spec fn bool_text(b: bool) -> Seq<char> {
    if b {
        "true"@
    } else {
        "false"@
    }
}

pub proof fn lemma_digits_value_step(s: Seq<char>, k: int)
    requires
        0 <= k < s.len(),
    ensures
        digits_value(s.take(k + 1)) == digits_value(s.take(k)) * 10 + digit_value(s[k]),
{
    assert(s.take(k + 1).drop_last() =~= s.take(k));
    assert(s.take(k + 1).last() == s[k]);
}

/// Reading more digits never makes the number smaller.
pub proof fn lemma_digits_value_grows(s: Seq<char>, k: int)
    requires
        0 <= k <= s.len(),
    ensures
        digits_value(s.take(k)) <= digits_value(s),
    decreases s.len() - k,
{
    if k == s.len() {
        assert(s.take(k) =~= s);
    } else {
        lemma_digits_value_step(s, k);
        lemma_digits_value_grows(s, k + 1);
    }
}

/// A numeral is made of digits and denotes its number.
pub proof fn lemma_decimal_value(n: nat)
    ensures
        decimal(n).len() > 0,
        all_digits(decimal(n)),
        digits_value(decimal(n)) == n,
    decreases n,
{
    if n < 10 {
        let s = decimal(n);
        assert(s.drop_last() =~= Seq::<char>::empty());
        assert(digits_value(s.drop_last()) == 0);
        assert(s.last() == digit_char(n as int));
    } else {
        lemma_decimal_value(n / 10);
        let p = decimal(n / 10);
        let c = digit_char((n % 10) as int);
        let s = p.push(c);
        assert(s.drop_last() =~= p);
        assert(s.last() == c);
        assert forall|i: int| 0 <= i < s.len() implies is_digit(#[trigger] s[i]) by {
            if i < p.len() {
                assert(s[i] == p[i]);
            }
        }
    }
}

/// A numeral of a number below 256 is read back as that number.
pub proof fn law_decimal_round_trip(n: u8)
    ensures
        spec_parse_u8(decimal(n as nat)) == Some(n),
{
    lemma_decimal_value(n as nat);
    let s = decimal(n as nat);
    assert(is_digit(s[0]));
    assert(unsigned_part(s) == s);
}

/// The two boolean words are read back as their booleans.
pub proof fn law_bool_round_trip(b: bool)
    ensures
        spec_parse_bool(bool_text(b)) == Some(b),
{
    reveal_strlit("true");
    reveal_strlit("false");
    assert("true"@.len() != "false"@.len());
}

pub fn digit_to_char(d: u8) -> (c: char)
    requires
        d < 10,
    ensures
        c == digit_char(d as int),
{
    if d == 0 {
        '0'
    } else if d == 1 {
        '1'
    } else if d == 2 {
        '2'
    } else if d == 3 {
        '3'
    } else if d == 4 {
        '4'
    } else if d == 5 {
        '5'
    } else if d == 6 {
        '6'
    } else if d == 7 {
        '7'
    } else if d == 8 {
        '8'
    } else {
        '9'
    }
}

/// Appends the decimal numeral of `n`.
pub fn push_decimal(s: &mut String, n: u64)
    ensures
        final(s)@ == old(s)@ + decimal(n as nat),
    decreases n,
{
    if n >= 10 {
        push_decimal(s, n / 10);
    }
    s.push(digit_to_char((n % 10) as u8));
    proof {
        if n < 10 {
            assert(old(s)@.push(digit_char(n as int)) =~= old(s)@ + decimal(n as nat));
        } else {
            assert((old(s)@ + decimal((n / 10) as nat)).push(digit_char((n % 10) as int)) =~= old(
                s,
            )@ + decimal(n as nat));
        }
    }
}

/// The decimal numeral of `n`.
pub fn decimal_string(n: u64) -> (s: String)
    ensures
        s@ == decimal(n as nat),
{
    let mut s = String::new();
    push_decimal(&mut s, n);
    proof {
        assert(Seq::<char>::empty() + decimal(n as nat) =~= decimal(n as nat));
    }
    s
}

/// Reads a token as a number below 256.
pub fn parse_u8(s: &str) -> (r: Option<u8>)
    ensures
        r == spec_parse_u8(s@),
{
    let v = to_chars(s);
    let n = v.len();
    let mut i: usize = 0;
    if n > 0 && v[0] == '+' {
        i = 1;
    }
    let start: usize = i;
    let ghost d = unsigned_part(s@);
    proof {
        assert(d =~= v@.skip(start as int));
    }
    if i == n {
        return None;
    }
    let mut acc: u32 = 0;
    proof {
        assert(d.take(0) =~= Seq::<char>::empty());
    }
    while i < n
        invariant
            start <= i <= n,
            n == v@.len(),
            d == v@.skip(start as int),
            d.len() == n - start,
            d.len() > 0,
            d == unsigned_part(s@),
            acc == digits_value(d.take(i - start)),
            acc <= 255,
            all_digits(d.take(i - start)),
        decreases n - i,
    {
        let c = v[i];
        let ghost k = (i - start) as int;
        proof {
            assert(d[k] == c);
            lemma_digits_value_step(d, k);
        }
        if !(c >= '0' && c <= '9') {
            return None;
        }
        let dv: u32 = (c as u32) - 48;
        acc = acc * 10 + dv;
        proof {
            lemma_digits_value_grows(d, k + 1);
            assert forall|j: int| 0 <= j < d.take(k + 1).len() implies is_digit(
                #[trigger] d.take(k + 1)[j],
            ) by {
                if j < k {
                    assert(d.take(k + 1)[j] == d.take(k)[j]);
                }
            }
        }
        if acc > 255 {
            return None;
        }
        i += 1;
    }
    proof {
        assert(d.take(d.len() as int) =~= d);
    }
    Some(acc as u8)
}

/// Reads a token as a boolean.
pub fn parse_bool(s: &str) -> (r: Option<bool>)
    ensures
        r == spec_parse_bool(s@),
{
    if str_eq(s, "true") {
        Some(true)
    } else if str_eq(s, "false") {
        Some(false)
    } else {
        None
    }
}

/// The word for a boolean.
pub fn bool_str(b: bool) -> (s: &'static str)
    ensures
        s@ == bool_text(b),
{
    if b {
        "true"
    } else {
        "false"
    }
}

} // verus!
