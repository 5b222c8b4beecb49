//! Character-level text search used to read serde attribute arguments.

use vstd::prelude::*;
use vstd::string::*;

verus! {

/// `needle` occurs in `s` starting at position `i`.
pub open spec fn occurs_at(s: Seq<char>, needle: Seq<char>, i: int) -> bool {
    &&& 0 <= i
    &&& i + needle.len() <= s.len()
    &&& s.subrange(i, i + needle.len()) == needle
}

/// The first position at or after `start` where `needle` occurs in `s`.
pub open spec fn find_from(s: Seq<char>, needle: Seq<char>, start: nat) -> Option<nat>
    decreases s.len() + 1 - start,
{
    if start + needle.len() > s.len() {
        None
    } else if occurs_at(s, needle, start as int) {
        Some(start)
    } else {
        find_from(s, needle, start + 1)
    }
}

/// `find_from` returns exactly the least occurrence at or after `start`.
pub proof fn lemma_find_from(s: Seq<char>, needle: Seq<char>, start: nat)
    ensures
        find_from(s, needle, start) matches Some(k) ==> {
            &&& start <= k
            &&& occurs_at(s, needle, k as int)
            &&& forall|j: int| start <= j < k ==> !occurs_at(s, needle, j)
        },
        find_from(s, needle, start) is None ==> forall|j: int|
            start <= j ==> !occurs_at(s, needle, j),
    decreases s.len() + 1 - start,
{
    if start + needle.len() > s.len() {
    } else if occurs_at(s, needle, start as int) {
    } else {
        lemma_find_from(s, needle, start + 1);
    }
}

/// The characters of `s`, in order.
pub fn chars_of(s: &str) -> (v: Vec<char>)
    ensures
        v@ == s@,
{
    let n = s.unicode_len();
    let mut v: Vec<char> = Vec::new();
    let mut i: usize = 0;
    while i < n
        invariant
            n == s@.len(),
            i <= n,
            v@ == s@.take(i as int),
        decreases n - i,
    {
        let c = s.get_char(i);
        v.push(c);
        i = i + 1;
        assert(v@ =~= s@.take(i as int));
    }
    assert(v@ =~= s@);
    v
}

/// Whether `needle` occurs in `s` at position `i`.
pub fn matches_at(s: &Vec<char>, needle: &Vec<char>, i: usize) -> (r: bool)
    ensures
        r == occurs_at(s@, needle@, i as int),
{
    if i > s.len() || needle.len() > s.len() - i {
        return false;
    }
    let mut j: usize = 0;
    while j < needle.len()
        invariant
            i + needle@.len() <= s@.len(),
            s@.len() == s.len(),
            j <= needle@.len(),
            forall|jj: int| 0 <= jj < j ==> s@[i + jj] == needle@[jj],
        decreases needle@.len() - j,
    {
        if s[i + j] != needle[j] {
            assert(s@.subrange(i as int, i + needle@.len())[j as int] != needle@[j as int]);
            return false;
        }
        j = j + 1;
    }
    assert(s@.subrange(i as int, i + needle@.len()) =~= needle@);
    true
}

/// Whether `needle` occurs anywhere in `text`.
pub open spec fn contains_text(text: Seq<char>, needle: Seq<char>) -> bool {
    find_from(text, needle, 0) is Some
}

/// Where a left-to-right reading of token text stands: in code (possibly
/// right after an `r`, which with a following `"` opens a raw string), inside
/// a string literal, right after a backslash in one, or inside a raw string.
#[derive(Clone, Copy, PartialEq, Eq, Structural)]
pub enum LexState {
    Code,
    CodeAfterR,
    Str,
    StrEscape,
    RawStr,
}

/// The reading state after one more character.
pub open spec fn lex_step(state: LexState, c: char) -> LexState {
    match state {
        LexState::Code => if c == '"' {
            LexState::Str
        } else if c == 'r' {
            LexState::CodeAfterR
        } else {
            LexState::Code
        },
        LexState::CodeAfterR => if c == '"' {
            LexState::RawStr
        } else if c == 'r' {
            LexState::CodeAfterR
        } else {
            LexState::Code
        },
        LexState::Str => if c == '\\' {
            LexState::StrEscape
        } else if c == '"' {
            LexState::Code
        } else {
            LexState::Str
        },
        LexState::StrEscape => LexState::Str,
        LexState::RawStr => if c == '"' {
            LexState::Code
        } else {
            LexState::RawStr
        },
    }
}

/// The reading state just before position `i` of `text`.
pub open spec fn lex_state(text: Seq<char>, i: int) -> LexState
    decreases i,
{
    if i <= 0 {
        LexState::Code
    } else {
        lex_step(lex_state(text, i - 1), text[i - 1])
    }
}

/// The reading stands in code, outside every literal.
pub open spec fn in_code(state: LexState) -> bool {
    state == LexState::Code || state == LexState::CodeAfterR
}

/// The reading stands inside a string or raw string literal, not after a
/// backslash.
pub open spec fn in_literal(state: LexState) -> bool {
    state == LexState::Str || state == LexState::RawStr
}

/// Whitespace between tokens.
pub open spec fn is_ws(c: char) -> bool {
    c == ' ' || c == '\t' || c == '\n' || c == '\r'
}

/// The position of the last character before `i` that is not whitespace.
pub open spec fn prev_non_ws(text: Seq<char>, i: int) -> Option<int>
    decreases i,
{
    if i <= 0 {
        None
    } else if !is_ws(text[i - 1]) {
        Some(i - 1)
    } else {
        prev_non_ws(text, i - 1)
    }
}

/// The position of the first character at or after `i` that is not whitespace.
pub open spec fn next_non_ws(text: Seq<char>, i: int) -> Option<int>
    decreases text.len() - i,
{
    if i < 0 || i >= text.len() {
        None
    } else if !is_ws(text[i]) {
        Some(i)
    } else {
        next_non_ws(text, i + 1)
    }
}

/// `key` stands at `i` as the key of an argument list entry: in code, not in
/// a literal, right after `(` or `,`.
pub open spec fn key_at(text: Seq<char>, key: Seq<char>, i: int) -> bool {
    &&& occurs_at(text, key, i)
    &&& in_code(lex_state(text, i))
    &&& prev_non_ws(text, i) matches Some(p) && (text[p] == '(' || text[p] == ',')
}

/// The first position at or after `from` of a double quote that closes a
/// string or raw string literal.
pub open spec fn closing_quote(text: Seq<char>, from: int) -> Option<int>
    decreases text.len() - from,
{
    if from < 0 || from >= text.len() {
        None
    } else if text[from] == '"' && in_literal(lex_state(text, from)) {
        Some(from)
    } else {
        closing_quote(text, from + 1)
    }
}

/// The first position at or after `from` of a `)` in code.
pub open spec fn closing_paren(text: Seq<char>, from: int) -> Option<int>
    decreases text.len() - from,
{
    if from < 0 || from >= text.len() {
        None
    } else if text[from] == ')' && in_code(lex_state(text, from)) {
        Some(from)
    } else {
        closing_paren(text, from + 1)
    }
}

/// The contents of the string literal (`"..."` or `r"..."`) that starts at
/// position `p`.
pub open spec fn literal_at(text: Seq<char>, p: int) -> Option<Seq<char>> {
    if 0 <= p < text.len() && in_code(lex_state(text, p)) && text[p] == '"' {
        match closing_quote(text, p + 1) {
            Some(close) => Some(text.subrange(p + 1, close)),
            None => None,
        }
    } else if 0 <= p && p + 1 < text.len() && in_code(lex_state(text, p)) && text[p] == 'r'
        && text[p + 1] == '"' {
        match closing_quote(text, p + 2) {
            Some(close) => Some(text.subrange(p + 2, close)),
            None => None,
        }
    } else {
        None
    }
}

/// The literal of a `key = "..."` entry that starts at `i`.
pub open spec fn assign_value_at(text: Seq<char>, key: Seq<char>, i: int) -> Option<Seq<char>> {
    if !key_at(text, key, i) {
        None
    } else {
        match next_non_ws(text, i + key.len()) {
            Some(eq) => if text[eq] != '=' {
                None
            } else {
                match next_non_ws(text, eq + 1) {
                    Some(p) => literal_at(text, p),
                    None => None,
                }
            },
            None => None,
        }
    }
}

/// The literal of the first `key = "..."` entry that starts at a position
/// from `start` up to (not including) `end`.
pub open spec fn first_assign_between(
    text: Seq<char>,
    key: Seq<char>,
    start: int,
    end: int,
) -> Option<Seq<char>>
    decreases end - start,
{
    if start < 0 || start >= end {
        None
    } else if assign_value_at(text, key, start) is Some {
        assign_value_at(text, key, start)
    } else {
        first_assign_between(text, key, start + 1, end)
    }
}

/// The value of an entry that starts at `i`: the literal of `key = "..."`, or
/// the literal of the `serialize = "..."` entry inside `key(...)`.
pub open spec fn key_value_at(text: Seq<char>, key: Seq<char>, i: int) -> Option<Seq<char>> {
    if !key_at(text, key, i) {
        None
    } else {
        match next_non_ws(text, i + key.len()) {
            Some(e) => if text[e] == '=' {
                assign_value_at(text, key, i)
            } else if text[e] == '(' {
                match closing_paren(text, e + 1) {
                    Some(close) => first_assign_between(text, "serialize"@, e + 1, close),
                    None => None,
                }
            } else {
                None
            },
            None => None,
        }
    }
}

/// The value of the first entry for `key` at or after `start` that has one.
pub open spec fn first_key_value(text: Seq<char>, key: Seq<char>, start: int) -> Option<Seq<char>>
    decreases text.len() + 1 - start,
{
    if start < 0 || start > text.len() {
        None
    } else if key_value_at(text, key, start) is Some {
        key_value_at(text, key, start)
    } else {
        first_key_value(text, key, start + 1)
    }
}

/// The value of the first entry for `key` of the token text that has one:
/// `key = "v"` or `key(serialize = "v", ...)` give `v`.
pub open spec fn keyword_value(text: Seq<char>, key: Seq<char>) -> Option<Seq<char>> {
    first_key_value(text, key, 0)
}

/// `key` stands at `i` as an entry of its own, followed by `,` or `)`.
pub open spec fn flag_at(text: Seq<char>, key: Seq<char>, i: int) -> bool {
    &&& key_at(text, key, i)
    &&& next_non_ws(text, i + key.len()) matches Some(e) && (text[e] == ',' || text[e] == ')')
}

/// Some entry of the token text is `key` alone.
pub open spec fn has_flag(text: Seq<char>, key: Seq<char>) -> bool {
    exists|i: int| flag_at(text, key, i)
}

/// `next_non_ws` finds a non-whitespace character at or after `i`.
pub proof fn lemma_next_non_ws(text: Seq<char>, i: int)
    ensures
        next_non_ws(text, i) matches Some(p) ==> i <= p < text.len() && !is_ws(text[p]),
    decreases text.len() - i,
{
    if 0 <= i < text.len() && is_ws(text[i]) {
        lemma_next_non_ws(text, i + 1);
    }
}

/// `prev_non_ws` finds a non-whitespace character before `i`.
pub proof fn lemma_prev_non_ws(text: Seq<char>, i: int)
    ensures
        prev_non_ws(text, i) matches Some(p) ==> 0 <= p < i && !is_ws(text[p]),
    decreases i,
{
    if i > 0 && is_ws(text[i - 1]) {
        lemma_prev_non_ws(text, i - 1);
    }
}

/// `closing_quote` finds a closing quote at or after `from`.
pub proof fn lemma_closing_quote(text: Seq<char>, from: int)
    ensures
        closing_quote(text, from) matches Some(c) ==> 0 <= from <= c < text.len(),
    decreases text.len() - from,
{
    if 0 <= from < text.len() && !(text[from] == '"' && in_literal(lex_state(text, from))) {
        lemma_closing_quote(text, from + 1);
    }
}

/// `closing_paren` finds a closing parenthesis at or after `from`.
pub proof fn lemma_closing_paren(text: Seq<char>, from: int)
    ensures
        closing_paren(text, from) matches Some(c) ==> 0 <= from <= c < text.len(),
    decreases text.len() - from,
{
    if 0 <= from < text.len() && !(text[from] == ')' && in_code(lex_state(text, from))) {
        lemma_closing_paren(text, from + 1);
    }
}

/// Whitespace between tokens.
fn ws(c: char) -> (r: bool)
    ensures
        r == is_ws(c),
{
    c == ' ' || c == '\t' || c == '\n' || c == '\r'
}

/// The reading state after one more character.
fn step(state: LexState, c: char) -> (r: LexState)
    ensures
        r == lex_step(state, c),
{
    match state {
        LexState::Code => if c == '"' {
            LexState::Str
        } else if c == 'r' {
            LexState::CodeAfterR
        } else {
            LexState::Code
        },
        LexState::CodeAfterR => if c == '"' {
            LexState::RawStr
        } else if c == 'r' {
            LexState::CodeAfterR
        } else {
            LexState::Code
        },
        LexState::Str => if c == '\\' {
            LexState::StrEscape
        } else if c == '"' {
            LexState::Code
        } else {
            LexState::Str
        },
        LexState::StrEscape => LexState::Str,
        LexState::RawStr => if c == '"' {
            LexState::Code
        } else {
            LexState::RawStr
        },
    }
}

fn is_code_state(state: LexState) -> (r: bool)
    ensures
        r == in_code(state),
{
    state == LexState::Code || state == LexState::CodeAfterR
}

fn is_literal_state(state: LexState) -> (r: bool)
    ensures
        r == in_literal(state),
{
    state == LexState::Str || state == LexState::RawStr
}

/// The reading state before each position of `t`, and after its end.
pub fn lex_states(t: &Vec<char>) -> (r: Vec<LexState>)
    ensures
        r@.len() == t@.len() + 1,
        forall|i: int| 0 <= i <= t@.len() ==> #[trigger] r@[i] == lex_state(t@, i),
{
    let mut r: Vec<LexState> = Vec::new();
    let mut state = LexState::Code;
    let mut i: usize = 0;
    while i < t.len()
        invariant
            i <= t@.len(),
            r@.len() == i,
            state == lex_state(t@, i as int),
            forall|j: int| 0 <= j < i ==> #[trigger] r@[j] == lex_state(t@, j),
        decreases t@.len() - i,
    {
        r.push(state);
        state = step(state, t[i]);
        i = i + 1;
    }
    r.push(state);
    r
}

/// The position of the last character before `i` that is not whitespace.
pub fn prev_non_ws_of(t: &Vec<char>, i: usize) -> (r: Option<usize>)
    requires
        i <= t@.len(),
    ensures
        match r {
            Some(p) => prev_non_ws(t@, i as int) == Some(p as int),
            None => prev_non_ws(t@, i as int) is None,
        },
{
    let mut k = i;
    while k > 0
        invariant
            k <= i <= t@.len(),
            prev_non_ws(t@, i as int) == prev_non_ws(t@, k as int),
        decreases k,
    {
        if !ws(t[k - 1]) {
            return Some(k - 1);
        }
        k = k - 1;
    }
    None
}

/// The position of the first character at or after `i` that is not whitespace.
pub fn next_non_ws_of(t: &Vec<char>, i: usize) -> (r: Option<usize>)
    ensures
        match r {
            Some(p) => next_non_ws(t@, i as int) == Some(p as int),
            None => next_non_ws(t@, i as int) is None,
        },
{
    let mut k = i;
    while k < t.len()
        invariant
            i <= k,
            next_non_ws(t@, i as int) == next_non_ws(t@, k as int),
        decreases t@.len() - k,
    {
        if !ws(t[k]) {
            return Some(k);
        }
        k = k + 1;
    }
    None
}

/// A token text with the reading state before each of its positions.
pub open spec fn lexed(t: Seq<char>, states: Seq<LexState>) -> bool {
    &&& states.len() == t.len() + 1
    &&& forall|i: int| 0 <= i <= t.len() ==> #[trigger] states[i] == lex_state(t, i)
}

/// The first double quote at or after `from` that closes a literal.
fn closing_quote_of(t: &Vec<char>, states: &Vec<LexState>, from: usize) -> (r: Option<usize>)
    requires
        lexed(t@, states@),
    ensures
        match r {
            Some(c) => closing_quote(t@, from as int) == Some(c as int),
            None => closing_quote(t@, from as int) is None,
        },
{
    let mut k = from;
    while k < t.len()
        invariant
            from <= k,
            lexed(t@, states@),
            closing_quote(t@, from as int) == closing_quote(t@, k as int),
        decreases t@.len() - k,
    {
        if t[k] == '"' && is_literal_state(states[k]) {
            return Some(k);
        }
        k = k + 1;
    }
    None
}

/// The first `)` in code at or after `from`.
fn closing_paren_of(t: &Vec<char>, states: &Vec<LexState>, from: usize) -> (r: Option<usize>)
    requires
        lexed(t@, states@),
    ensures
        match r {
            Some(c) => closing_paren(t@, from as int) == Some(c as int),
            None => closing_paren(t@, from as int) is None,
        },
{
    let mut k = from;
    while k < t.len()
        invariant
            from <= k,
            lexed(t@, states@),
            closing_paren(t@, from as int) == closing_paren(t@, k as int),
        decreases t@.len() - k,
    {
        if t[k] == ')' && is_code_state(states[k]) {
            return Some(k);
        }
        k = k + 1;
    }
    None
}

/// Whether `key` stands at `i` as the key of an argument list entry.
fn key_at_pos(t: &Vec<char>, states: &Vec<LexState>, key: &Vec<char>, i: usize) -> (r: bool)
    requires
        i <= t@.len(),
        lexed(t@, states@),
    ensures
        r == key_at(t@, key@, i as int),
{
    if !matches_at(t, key, i) || !is_code_state(states[i]) {
        return false;
    }
    let found = prev_non_ws_of(t, i);
    proof {
        lemma_prev_non_ws(t@, i as int);
    }
    match found {
        Some(p) => t[p] == '(' || t[p] == ',',
        None => false,
    }
}

/// The contents of the string literal that starts at `p`.
fn literal_at_pos(text: &str, t: &Vec<char>, states: &Vec<LexState>, p: usize) -> (r: Option<
    String,
>)
    requires
        t@ == text@,
        lexed(t@, states@),
    ensures
        r.deep_view() == literal_at(t@, p as int),
{
    let t_len = t.len();
    if p >= t_len || !is_code_state(states[p]) {
        return None;
    }
    let start = if t[p] == '"' {
        p + 1
    } else if t[p] == 'r' && p + 1 < t_len && t[p + 1] == '"' {
        p + 2
    } else {
        return None;
    };
    match closing_quote_of(t, states, start) {
        None => None,
        Some(close) => {
            proof {
                lemma_closing_quote(t@, start as int);
            }
            Some(text.substring_char(start, close).to_owned())
        },
    }
}

/// The literal of a `key = "..."` entry that starts at `i`.
fn assign_value_at_pos(
    text: &str,
    t: &Vec<char>,
    states: &Vec<LexState>,
    key: &Vec<char>,
    i: usize,
) -> (r: Option<String>)
    requires
        t@ == text@,
        i <= t@.len(),
        lexed(t@, states@),
    ensures
        r.deep_view() == assign_value_at(t@, key@, i as int),
{
    if !key_at_pos(t, states, key, i) {
        return None;
    }
    let t_len = t.len();
    let after = i + key.len();
    match next_non_ws_of(t, after) {
        None => None,
        Some(eq) => {
            proof {
                lemma_next_non_ws(t@, after as int);
            }
            assert(eq < t_len);
            if t[eq] != '=' {
                return None;
            }
            match next_non_ws_of(t, eq + 1) {
                None => None,
                Some(p) => literal_at_pos(text, t, states, p),
            }
        },
    }
}

/// The literal of the first `key = "..."` entry from `start` up to `end`.
fn first_assign_between_pos(
    text: &str,
    t: &Vec<char>,
    states: &Vec<LexState>,
    key: &Vec<char>,
    start: usize,
    end: usize,
) -> (r: Option<String>)
    requires
        t@ == text@,
        end <= t@.len(),
        lexed(t@, states@),
    ensures
        r.deep_view() == first_assign_between(t@, key@, start as int, end as int),
{
    let mut i = start;
    while i < end
        invariant
            t@ == text@,
            start <= i,
            end <= t@.len(),
            lexed(t@, states@),
            first_assign_between(t@, key@, start as int, end as int) == first_assign_between(
                t@,
                key@,
                i as int,
                end as int,
            ),
        decreases end - i,
    {
        let found = assign_value_at_pos(text, t, states, key, i);
        if found.is_some() {
            return found;
        }
        i = i + 1;
    }
    None
}

/// The value of the entry for `key` that starts at `i`.
fn key_value_at_pos(
    text: &str,
    t: &Vec<char>,
    states: &Vec<LexState>,
    key: &Vec<char>,
    i: usize,
) -> (r: Option<String>)
    requires
        t@ == text@,
        i <= t@.len(),
        lexed(t@, states@),
    ensures
        r.deep_view() == key_value_at(t@, key@, i as int),
{
    if !key_at_pos(t, states, key, i) {
        return None;
    }
    let t_len = t.len();
    let after = i + key.len();
    match next_non_ws_of(t, after) {
        None => None,
        Some(e) => {
            proof {
                lemma_next_non_ws(t@, after as int);
            }
            assert(e < t_len);
            if t[e] == '=' {
                assign_value_at_pos(text, t, states, key, i)
            } else if t[e] == '(' {
                match closing_paren_of(t, states, e + 1) {
                    None => None,
                    Some(close) => {
                        proof {
                            lemma_closing_paren(t@, e + 1);
                        }
                        let serialize = chars_of("serialize");
                        first_assign_between_pos(text, t, states, &serialize, e + 1, close)
                    },
                }
            } else {
                None
            }
        },
    }
}

/// The value of the first entry for `key` of the token text `text` that has
/// one.
pub fn key_value(text: &str, key: &str) -> (r: Option<String>)
    ensures
        r.deep_view() == keyword_value(text@, key@),
{
    let t = chars_of(text);
    let k = chars_of(key);
    let states = lex_states(&t);
    let mut i: usize = 0;
    while i < t.len()
        invariant
            t@ == text@,
            k@ == key@,
            lexed(t@, states@),
            i <= t@.len(),
            first_key_value(t@, k@, 0) == first_key_value(t@, k@, i as int),
        decreases t@.len() - i,
    {
        let found = key_value_at_pos(text, &t, &states, &k, i);
        if found.is_some() {
            return found;
        }
        i = i + 1;
    }
    assert(first_key_value(t@, k@, i + 1) is None);
    key_value_at_pos(text, &t, &states, &k, i)
}

/// Whether some entry of the token text `text` is `key` alone.
pub fn has_flag_key(text: &str, key: &str) -> (r: bool)
    ensures
        r == has_flag(text@, key@),
{
    let t = chars_of(text);
    let k = chars_of(key);
    let states = lex_states(&t);
    let t_len = t.len();
    let mut i: usize = 0;
    loop
        invariant
            t@ == text@,
            k@ == key@,
            t_len == t@.len(),
            lexed(t@, states@),
            i <= t@.len(),
            forall|j: int| 0 <= j < i ==> !#[trigger] flag_at(t@, k@, j),
        ensures
            forall|j: int| 0 <= j <= t@.len() ==> !#[trigger] flag_at(t@, k@, j),
        decreases t@.len() - i,
    {
        if key_at_pos(&t, &states, &k, i) {
            let after = i + k.len();
            let e = next_non_ws_of(&t, after);
            proof {
                lemma_next_non_ws(t@, after as int);
            }
            match e {
                Some(e) => {
                    if t[e] == ',' || t[e] == ')' {
                        assert(flag_at(t@, k@, i as int));
                        return true;
                    }
                },
                None => {},
            }
        }
        assert(!flag_at(t@, k@, i as int));
        if i == t_len {
            break;
        }
        i = i + 1;
    }
    assert forall|j: int| #[trigger] flag_at(t@, k@, j) implies false by {
        assert(occurs_at(t@, k@, j));
    }
    false
}

} // verus!
