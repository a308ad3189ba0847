//! The bracket-tag colour markup: its tokens and the scanner that finds them.
//!
//! A directive stands between `[` and the next `]`: `[#RRGGBB]` or
//! `[#RRGGBBAA]` is a colour by its channels, `[name]` a colour of the
//! palette, `[]` ends the innermost colour. `[[` stands for one `[`. A line
//! break is a token of its own. Everything else is text; a `[` that opens
//! neither a directive nor an escape is text too, together with what follows
//! it up to the next `[` or line break.

use crate::color::Name;
use crate::text::{chars_of, slice_of, string_of};
use vstd::prelude::*;

verus! {

/// One unit of scanned markup, as a mathematical value.
pub enum Token {
    HexColor { r: u8, g: u8, b: u8, a: Option<u8> },
    Named(Name),
    Popped,
    Text(Seq<char>),
    Escaped,
    NewLine,
}

/// One unit of scanned markup.
#[derive(Clone, Debug, PartialEq, Eq)]
pub enum Markup {
    /// A colour given by its channels; without `a` it is opaque.
    HexColor { r: u8, g: u8, b: u8, a: Option<u8> },
    /// A colour of the palette.
    Named(Name),
    /// The end of the innermost colour.
    Popped,
    /// A run of literal text.
    Text(String),
    /// One literal `[`.
    Escaped,
    /// A line break.
    NewLine,
}

impl View for Markup {
    type V = Token;

    open spec fn view(&self) -> Token {
        match *self {
            Markup::HexColor { r, g, b, a } => Token::HexColor { r, g, b, a },
            Markup::Named(name) => Token::Named(name),
            Markup::Popped => Token::Popped,
            Markup::Text(text) => Token::Text(text@),
            Markup::Escaped => Token::Escaped,
            Markup::NewLine => Token::NewLine,
        }
    }
}

/// The tokens of `tokens`, each as a mathematical value.
pub open spec fn views(tokens: Seq<Markup>) -> Seq<Token> {
    tokens.map_values(|t: Markup| t@)
}

/// A character that ends a run of text.
pub open spec fn is_stop(c: char) -> bool {
    c == '[' || c == '\n'
}

/// A character that ends the search for a directive's closing bracket.
pub open spec fn is_fence(c: char) -> bool {
    c == ']' || c == '[' || c == '\n'
}

/// The first position at or after `i` that holds a stop, or the length of `s`.
pub open spec fn run_end(s: Seq<char>, i: int) -> int
    decreases s.len() - i,
{
    if i < 0 || i >= s.len() || is_stop(s[i]) {
        i
    } else {
        run_end(s, i + 1)
    }
}

/// The first position at or after `i` that holds a fence, or the length of `s`.
pub open spec fn fence_at(s: Seq<char>, i: int) -> int
    decreases s.len() - i,
{
    if i < 0 || i >= s.len() || is_fence(s[i]) {
        i
    } else {
        fence_at(s, i + 1)
    }
}

/// The value of a hexadecimal digit, in either case.
pub open spec fn hex_value(c: char) -> Option<u8> {
    let n = c as u32;
    if 48 <= n <= 57 {
        Some((n - 48) as u8)
    } else if 97 <= n <= 102 {
        Some((n - 87) as u8)
    } else if 65 <= n <= 70 {
        Some((n - 55) as u8)
    } else {
        None
    }
}

/// The byte that two hexadecimal digits write.
pub open spec fn hex_byte(hi: char, lo: char) -> Option<u8> {
    match (hex_value(hi), hex_value(lo)) {
        (Some(h), Some(l)) => Some((h * 16 + l) as u8),
        _ => None,
    }
}

/// The colour that `content` writes, where `content` is `#` and then six or
/// eight hexadecimal digits.
pub open spec fn hex_color(content: Seq<char>) -> Option<Token> {
    if content.len() == 7 {
        match (
            hex_byte(content[1], content[2]),
            hex_byte(content[3], content[4]),
            hex_byte(content[5], content[6]),
        ) {
            (Some(r), Some(g), Some(b)) => Some(Token::HexColor { r, g, b, a: None }),
            _ => None,
        }
    } else if content.len() == 9 {
        match (
            hex_byte(content[1], content[2]),
            hex_byte(content[3], content[4]),
            hex_byte(content[5], content[6]),
            hex_byte(content[7], content[8]),
        ) {
            (Some(r), Some(g), Some(b), Some(a)) => Some(Token::HexColor { r, g, b, a: Some(a) }),
            _ => None,
        }
    } else {
        None
    }
}

/// The directive that stands between two brackets around `content`, if
/// `content` is one.
pub open spec fn directive(content: Seq<char>) -> Option<Token> {
    if content.len() == 0 {
        Some(Token::Popped)
    } else if content[0] == '#' {
        hex_color(content)
    } else {
        match Name::named(content) {
            Some(name) => Some(Token::Named(name)),
            None => None,
        }
    }
}

/// The directive that opens at the bracket at `i`, and the position behind
/// its closing bracket.
pub open spec fn directive_at(s: Seq<char>, i: int) -> Option<(Token, int)> {
    let close = fence_at(s, i + 1);
    if 0 <= i < s.len() && s[i] == '[' && close < s.len() && s[close] == ']' {
        match directive(s.subrange(i + 1, close)) {
            Some(token) => Some((token, close + 1)),
            None => None,
        }
    } else {
        None
    }
}

/// Whether an escaped bracket stands at `i`.
pub open spec fn escape_at(s: Seq<char>, i: int) -> bool {
    0 <= i && i + 1 < s.len() && s[i] == '[' && s[i + 1] == '['
}

/// The token that starts at `i`, and the position behind it.
pub open spec fn token_at(s: Seq<char>, i: int) -> (Token, int)
    recommends
        0 <= i < s.len(),
{
    if s[i] == '\n' {
        (Token::NewLine, i + 1)
    } else if escape_at(s, i) {
        (Token::Escaped, i + 2)
    } else if directive_at(s, i) is Some {
        directive_at(s, i)->0
    } else {
        (Token::Text(s.subrange(i, run_end(s, i + 1))), run_end(s, i + 1))
    }
}

/// The tokens of `s` from position `i` on.
pub open spec fn scan(s: Seq<char>, i: int) -> Seq<Token>
    decreases s.len() - i,
    via scan_decreases
{
    if i < 0 || i >= s.len() {
        Seq::empty()
    } else {
        seq![token_at(s, i).0] + scan(s, token_at(s, i).1)
    }
}

#[via_fn]
proof fn scan_decreases(s: Seq<char>, i: int) {
    if 0 <= i < s.len() {
        token_advances(s, i);
    }
}

/// The tokens of `s`.
pub open spec fn tokens_of(s: Seq<char>) -> Seq<Token> {
    scan(s, 0)
}

/// A run ends at or after its start, within `s`, and holds no stop.
pub proof fn run_end_bounds(s: Seq<char>, i: int)
    requires
        0 <= i <= s.len(),
    ensures
        i <= run_end(s, i) <= s.len(),
        run_end(s, i) < s.len() ==> is_stop(s[run_end(s, i)]),
        forall|k: int| i <= k < run_end(s, i) ==> !is_stop(#[trigger] s[k]),
    decreases s.len() - i,
{
    if i < s.len() && !is_stop(s[i]) {
        run_end_bounds(s, i + 1);
    }
}

/// The search for a fence ends at or after its start, within `s`, and passes
/// no fence.
pub proof fn fence_at_bounds(s: Seq<char>, i: int)
    requires
        0 <= i <= s.len(),
    ensures
        i <= fence_at(s, i) <= s.len(),
        fence_at(s, i) < s.len() ==> is_fence(s[fence_at(s, i)]),
        forall|k: int| i <= k < fence_at(s, i) ==> !is_fence(#[trigger] s[k]),
    decreases s.len() - i,
{
    if i < s.len() && !is_fence(s[i]) {
        fence_at_bounds(s, i + 1);
    }
}

/// Every token takes at least one character and ends within the input.
pub proof fn token_advances(s: Seq<char>, i: int)
    requires
        0 <= i < s.len(),
    ensures
        i < token_at(s, i).1 <= s.len(),
{
    run_end_bounds(s, i + 1);
    fence_at_bounds(s, i + 1);
}

fn find_run_end(chars: &Vec<char>, from: usize) -> (end: usize)
    requires
        from <= chars.len(),
    ensures
        end == run_end(chars@, from as int),
        from <= end <= chars.len(),
{
    let mut k: usize = from;
    while k < chars.len() && !(chars[k] == '[' || chars[k] == '\n')
        invariant
            from <= k <= chars.len(),
            run_end(chars@, k as int) == run_end(chars@, from as int),
        decreases chars.len() - k,
    {
        k += 1;
    }
    k
}

fn find_fence(chars: &Vec<char>, from: usize) -> (end: usize)
    requires
        from <= chars.len(),
    ensures
        end == fence_at(chars@, from as int),
        from <= end <= chars.len(),
{
    let mut k: usize = from;
    while k < chars.len() && !(chars[k] == ']' || chars[k] == '[' || chars[k] == '\n')
        invariant
            from <= k <= chars.len(),
            fence_at(chars@, k as int) == fence_at(chars@, from as int),
        decreases chars.len() - k,
    {
        k += 1;
    }
    k
}

/// The value of a hexadecimal digit, in either case.
pub fn hex_digit(c: char) -> (value: Option<u8>)
    ensures
        value == hex_value(c),
{
    let n: u32 = c as u32;
    if 48 <= n && n <= 57 {
        Some((n - 48) as u8)
    } else if 97 <= n && n <= 102 {
        Some((n - 87) as u8)
    } else if 65 <= n && n <= 70 {
        Some((n - 55) as u8)
    } else {
        None
    }
}

fn hex_pair(hi: char, lo: char) -> (value: Option<u8>)
    ensures
        value == hex_byte(hi, lo),
{
    match (hex_digit(hi), hex_digit(lo)) {
        (Some(h), Some(l)) => Some(h * 16 + l),
        _ => None,
    }
}

fn read_hex_color(content: &Vec<char>) -> (token: Option<Markup>)
    ensures
        match token {
            Some(t) => hex_color(content@) == Some(t@),
            None => hex_color(content@) is None,
        },
{
    if content.len() == 7 {
        match (
            hex_pair(content[1], content[2]),
            hex_pair(content[3], content[4]),
            hex_pair(content[5], content[6]),
        ) {
            (Some(r), Some(g), Some(b)) => Some(Markup::HexColor { r, g, b, a: None }),
            _ => None,
        }
    } else if content.len() == 9 {
        match (
            hex_pair(content[1], content[2]),
            hex_pair(content[3], content[4]),
            hex_pair(content[5], content[6]),
            hex_pair(content[7], content[8]),
        ) {
            (Some(r), Some(g), Some(b), Some(a)) => Some(Markup::HexColor { r, g, b, a: Some(a) }),
            _ => None,
        }
    } else {
        None
    }
}

/// Reads what stands between two brackets.
pub fn read_directive(content: &Vec<char>) -> (token: Option<Markup>)
    ensures
        match token {
            Some(t) => directive(content@) == Some(t@),
            None => directive(content@) is None,
        },
{
    if content.len() == 0 {
        Some(Markup::Popped)
    } else if content[0] == '#' {
        read_hex_color(content)
    } else {
        match Name::lookup(content) {
            Some(name) => Some(Markup::Named(name)),
            None => None,
        }
    }
}

fn read_directive_at(chars: &Vec<char>, i: usize) -> (found: Option<(Markup, usize)>)
    requires
        i < chars.len(),
        chars[i as int] == '[',
    ensures
        match found {
            Some((t, next)) => directive_at(chars@, i as int) == Some((t@, next as int)),
            None => directive_at(chars@, i as int) is None,
        },
{
    let close = find_fence(chars, i + 1);
    if close < chars.len() && chars[close] == ']' {
        let content = slice_of(chars, i + 1, close);
        match read_directive(&content) {
            Some(token) => Some((token, close + 1)),
            None => None,
        }
    } else {
        None
    }
}

fn read_token(chars: &Vec<char>, i: usize) -> (found: (Markup, usize))
    requires
        i < chars.len(),
    ensures
        (found.0@, found.1 as int) == token_at(chars@, i as int),
        i < found.1 <= chars.len(),
{
    proof {
        token_advances(chars@, i as int);
    }
    if chars[i] == '\n' {
        return (Markup::NewLine, i + 1);
    }
    if chars[i] == '[' {
        if i + 1 < chars.len() && chars[i + 1] == '[' {
            return (Markup::Escaped, i + 2);
        }
        match read_directive_at(chars, i) {
            Some(found) => {
                return found;
            },
            None => {},
        }
    }
    let end = find_run_end(chars, i + 1);
    (Markup::Text(string_of(chars, i, end)), end)
}

impl Markup {
    /// Scans `input` into its tokens, in the order in which they stand.
    /// Every input has tokens: what is no directive is text.
    pub fn parse(input: &str) -> (tokens: Vec<Markup>)
        ensures
            views(tokens@) == tokens_of(input@),
    {
        let chars = chars_of(input);
        let mut tokens: Vec<Markup> = Vec::new();
        let mut i: usize = 0;
        while i < chars.len()
            invariant
                i <= chars.len(),
                chars@ == input@,
                views(tokens@) + scan(chars@, i as int) == scan(chars@, 0),
            decreases chars.len() - i,
        {
            let (token, next) = read_token(&chars, i);
            proof {
                let before = views(tokens@);
                assert(views(tokens@.push(token)) =~= before.push(token@));
                assert(before.push(token@) + scan(chars@, next as int) =~= before + scan(
                    chars@,
                    i as int,
                ));
            }
            tokens.push(token);
            i = next;
        }
        assert(views(tokens@) + scan(chars@, i as int) =~= views(tokens@));
        tokens
    }
}

/// What a token stands for as literal text: a run of text is itself, an
/// escape is one `[`, a line break is `"\n"`, a colour directive is nothing.
pub open spec fn payload(token: Token) -> Seq<char> {
    match token {
        Token::Text(text) => text,
        Token::Escaped => seq!['['],
        Token::NewLine => seq!['\n'],
        _ => Seq::empty(),
    }
}

/// The payloads of `tokens`, one after the other.
pub open spec fn literal_text(tokens: Seq<Token>) -> Seq<char>
    decreases tokens.len(),
{
    if tokens.len() == 0 {
        Seq::empty()
    } else {
        payload(tokens[0]) + literal_text(tokens.skip(1))
    }
}

/// `s` from position `i` on, read character by character, with every colour
/// directive left out and every escaped bracket reduced to the one bracket
/// it stands for.
pub open spec fn plain_text(s: Seq<char>, i: int) -> Seq<char>
    decreases s.len() - i,
    via plain_text_decreases
{
    if i < 0 || i >= s.len() {
        Seq::empty()
    } else if escape_at(s, i) {
        seq!['['] + plain_text(s, i + 2)
    } else if directive_at(s, i) is Some {
        plain_text(s, directive_at(s, i).unwrap().1)
    } else {
        seq![s[i]] + plain_text(s, i + 1)
    }
}

#[via_fn]
proof fn plain_text_decreases(s: Seq<char>, i: int) {
    if 0 <= i < s.len() {
        fence_at_bounds(s, i + 1);
    }
}

/// Within a run of text nothing is left out: the plain text from `i` on is
/// the run up to `end`, then the plain text from `end` on.
proof fn plain_text_of_run(s: Seq<char>, i: int, end: int)
    requires
        0 <= i <= end <= s.len(),
        forall|k: int| i <= k < end ==> !is_stop(#[trigger] s[k]),
    ensures
        plain_text(s, i) == s.subrange(i, end) + plain_text(s, end),
    decreases end - i,
{
    if i < end {
        plain_text_of_run(s, i + 1, end);
        assert(!is_stop(s[i]));
        assert(seq![s[i]] + (s.subrange(i + 1, end) + plain_text(s, end)) =~= s.subrange(i, end)
            + plain_text(s, end));
    } else {
        assert(s.subrange(i, end) + plain_text(s, end) =~= plain_text(s, end));
    }
}

/// The literal text of the tokens from `i` on is the plain text from `i` on.
pub proof fn literal_text_of_scan(s: Seq<char>, i: int)
    requires
        0 <= i <= s.len(),
    ensures
        literal_text(scan(s, i)) == plain_text(s, i),
    decreases s.len() - i,
{
    if i < s.len() {
        token_advances(s, i);
        let (token, next) = token_at(s, i);
        literal_text_of_scan(s, next);
        let rest = scan(s, next);
        assert(scan(s, i).skip(1) =~= rest);
        assert(literal_text(scan(s, i)) == payload(token) + literal_text(rest));
        if s[i] == '\n' {
        } else if escape_at(s, i) {
        } else if directive_at(s, i) is Some {
            assert(payload(token) + plain_text(s, next) =~= plain_text(s, next));
        } else {
            run_end_bounds(s, i + 1);
            plain_text_of_run(s, i + 1, next);
            assert(s.subrange(i, next) + plain_text(s, next) =~= seq![s[i]] + (s.subrange(
                i + 1,
                next,
            ) + plain_text(s, next)));
        }
    }
}

/// Round trip of literal content: the payloads of the tokens of `s`, one
/// after the other, are `s` with its colour directives left out and each
/// escaped bracket reduced to one bracket.
pub proof fn literal_content_round_trip(s: Seq<char>)
    ensures
        literal_text(tokens_of(s)) == plain_text(s, 0),
{
    literal_text_of_scan(s, 0);
}

/// Where `s` holds no bracket at all, nothing is left out: the payloads of
/// its tokens spell `s`.
pub proof fn text_without_brackets_is_kept(s: Seq<char>)
    requires
        forall|k: int| 0 <= k < s.len() ==> s[k] != '[',
    ensures
        literal_text(tokens_of(s)) == s,
{
    literal_text_of_scan(s, 0);
    plain_text_without_brackets(s, 0);
    assert(s.subrange(0, s.len() as int) =~= s);
}

proof fn plain_text_without_brackets(s: Seq<char>, i: int)
    requires
        0 <= i <= s.len(),
        forall|k: int| 0 <= k < s.len() ==> s[k] != '[',
    ensures
        plain_text(s, i) == s.subrange(i, s.len() as int),
    decreases s.len() - i,
{
    if i < s.len() {
        plain_text_without_brackets(s, i + 1);
        assert(seq![s[i]] + s.subrange(i + 1, s.len() as int) =~= s.subrange(i, s.len() as int));
    } else {
        assert(s.subrange(i, s.len() as int) =~= Seq::<char>::empty());
    }
}

} // verus!
