//! Character-level helpers shared by the markup scanner and the listing filter.

use vstd::prelude::*;
use vstd::string::StringExecFns;

verus! {

/// `String::push` appends one character.
pub assume_specification[ String::push ](s: &mut String, ch: char)
    ensures
        final(s)@ == old(s)@.push(ch),
;

/// What `str::to_lowercase` makes of a text: its lower case by the rules of
/// Unicode.
pub uninterp spec fn lowercase_of(text: Seq<char>) -> Seq<char>;

/// Whether Unicode gives a character the property `White_Space`: tab to
/// carriage return, the space, next line, the no-break space, the ogham
/// space mark, the spaces from en quad to hair space, the line and
/// paragraph separators, the narrow no-break space, the medium
/// mathematical space and the ideographic space.
pub open spec fn is_white_space(c: char) -> bool {
    let n = c as u32;
    ||| 0x09 <= n <= 0x0d
    ||| n == 0x20
    ||| n == 0x85
    ||| n == 0xa0
    ||| n == 0x1680
    ||| 0x2000 <= n <= 0x200a
    ||| n == 0x2028
    ||| n == 0x2029
    ||| n == 0x202f
    ||| n == 0x205f
    ||| n == 0x3000
}

/// `str::to_lowercase` returns the lower case of the text as a new `String`.
pub assume_specification[ str::to_lowercase ](text: &str) -> (lower: String)
    ensures
        lower@ == lowercase_of(text@),
;

/// `char::is_whitespace` tells whether the character has the property
/// `White_Space`.
pub assume_specification[ char::is_whitespace ](c: char) -> (white: bool)
    ensures
        white == is_white_space(c),
;

/// The characters of `s`, in order, with constant-time indexing.
pub fn chars_of(s: &str) -> (out: Vec<char>)
    ensures
        out@ == s@,
{
    let mut out: Vec<char> = Vec::new();
    for c in it: s.chars()
        invariant
            out@ == it.seq().take(it.index()),
    {
        out.push(c);
    }
    out
}

/// The string made of `chars[from..to]`.
pub fn string_of(chars: &Vec<char>, from: usize, to: usize) -> (out: String)
    requires
        from <= to <= chars.len(),
    ensures
        out@ == chars@.subrange(from as int, to as int),
{
    let mut out = String::new();
    let mut i: usize = from;
    while i < to
        invariant
            from <= i <= to <= chars.len(),
            out@ == chars@.subrange(from as int, i as int),
        decreases to - i,
    {
        out.push(chars[i]);
        i += 1;
        assert(chars@.subrange(from as int, i as int) == chars@.subrange(from as int, i - 1).push(
            chars@[i - 1],
        ));
    }
    out
}

/// Whether `a`, read as characters, is the text `b`.
pub fn same_text(a: &Vec<char>, b: &str) -> (same: bool)
    ensures
        same == (a@ == b@),
{
    let mut n: usize = 0;
    for c in it: b.chars()
        invariant
            n == it.index(),
            it.seq() == b@,
            n <= a.len(),
            a@.take(n as int) == b@.take(n as int),
    {
        if n >= a.len() {
            assert(a@.len() < b@.len());
            return false;
        }
        if a[n] != c {
            assert(a@[n as int] != b@[n as int]);
            return false;
        }
        n += 1;
        assert(a@.take(n as int) == a@.take(n - 1).push(a@[n - 1]));
        assert(b@.take(n as int) == b@.take(n - 1).push(b@[n - 1]));
    }
    assert(b@.take(n as int) == b@);
    if n == a.len() {
        assert(a@.take(n as int) == a@);
        true
    } else {
        false
    }
}

/// A copy of `chars[from..to]`.
pub fn slice_of(chars: &Vec<char>, from: usize, to: usize) -> (out: Vec<char>)
    requires
        from <= to <= chars.len(),
    ensures
        out@ == chars@.subrange(from as int, to as int),
{
    let mut out: Vec<char> = Vec::new();
    let mut i: usize = from;
    while i < to
        invariant
            from <= i <= to <= chars.len(),
            out@ == chars@.subrange(from as int, i as int),
        decreases to - i,
    {
        out.push(chars[i]);
        i += 1;
        assert(chars@.subrange(from as int, i as int) == chars@.subrange(from as int, i - 1).push(
            chars@[i - 1],
        ));
    }
    out
}

/// The texts of `strings`, each as a sequence of characters.
pub open spec fn texts(strings: Seq<String>) -> Seq<Seq<char>> {
    strings.map_values(|s: String| s@)
}

/// The first position at or after `i` that holds `c`, or the length of `s`.
pub open spec fn position_of(s: Seq<char>, c: char, i: int) -> int
    decreases s.len() - i,
{
    if i < 0 || i >= s.len() || s[i] == c {
        i
    } else {
        position_of(s, c, i + 1)
    }
}

/// The search for a character ends within `s`, on the character or at the
/// end, and passes no other occurrence.
pub proof fn position_of_bounds(s: Seq<char>, c: char, i: int)
    requires
        0 <= i <= s.len(),
    ensures
        i <= position_of(s, c, i) <= s.len(),
        position_of(s, c, i) < s.len() ==> s[position_of(s, c, i)] == c,
        forall|k: int| i <= k < position_of(s, c, i) ==> #[trigger] s[k] != c,
    decreases s.len() - i,
{
    if i < s.len() && s[i] != c {
        position_of_bounds(s, c, i + 1);
    }
}

/// The first position at or after `from` that holds `c`, or the length.
pub fn find_char(chars: &Vec<char>, c: char, from: usize) -> (at: usize)
    requires
        from <= chars.len(),
    ensures
        at == position_of(chars@, c, from as int),
        from <= at <= chars.len(),
{
    let mut k: usize = from;
    while k < chars.len() && chars[k] != c
        invariant
            from <= k <= chars.len(),
            position_of(chars@, c, k as int) == position_of(chars@, c, from as int),
        decreases chars.len() - k,
    {
        k += 1;
    }
    k
}

/// Whether `needle` stands in `hay` at position `at`.
pub open spec fn occurs_at(hay: Seq<char>, needle: Seq<char>, at: int) -> bool {
    0 <= at && at + needle.len() <= hay.len() && hay.subrange(at, at + needle.len()) == needle
}

/// Whether `needle` stands somewhere in `hay`. The empty text stands in
/// every text.
pub open spec fn contains(hay: Seq<char>, needle: Seq<char>) -> bool {
    exists|at: int| occurs_at(hay, needle, at)
}

fn matches_at(hay: &Vec<char>, needle: &Vec<char>, at: usize) -> (found: bool)
    requires
        at + needle.len() <= hay.len(),
    ensures
        found == occurs_at(hay@, needle@, at as int),
{
    let mut k: usize = 0;
    while k < needle.len()
        invariant
            k <= needle.len(),
            at + needle.len() <= hay.len(),
            hay@.subrange(at as int, at + k) == needle@.take(k as int),
        decreases needle.len() - k,
    {
        if hay[at + k] != needle[k] {
            assert(hay@.subrange(at as int, at + needle.len())[k as int] != needle@[k as int]);
            return false;
        }
        k += 1;
        assert(hay@.subrange(at as int, at + k) == hay@.subrange(at as int, at + k - 1).push(
            hay@[at + k - 1],
        ));
        assert(needle@.take(k as int) == needle@.take(k - 1).push(needle@[k - 1]));
    }
    assert(needle@.take(k as int) == needle@);
    true
}

/// Whether `needle` stands somewhere in `hay`.
pub fn is_substring(hay: &Vec<char>, needle: &Vec<char>) -> (found: bool)
    ensures
        found == contains(hay@, needle@),
{
    if needle.len() > hay.len() {
        return false;
    }
    let last: usize = hay.len() - needle.len();
    let mut at: usize = 0;
    loop
        invariant
            at <= last,
            last == hay.len() - needle.len(),
            forall|k: int| 0 <= k < at ==> !occurs_at(hay@, needle@, k),
        decreases last - at,
    {
        if matches_at(hay, needle, at) {
            return true;
        }
        if at == last {
            return false;
        }
        at += 1;
    }
}

/// The first position at or after `i` that holds white space, or the
/// length of `s`.
pub open spec fn word_end(s: Seq<char>, i: int) -> int
    decreases s.len() - i,
{
    if i < 0 || i >= s.len() || is_white_space(s[i]) {
        i
    } else {
        word_end(s, i + 1)
    }
}

/// A word ends within `s`, and behind its first character.
pub proof fn word_end_bounds(s: Seq<char>, i: int)
    requires
        0 <= i <= s.len(),
    ensures
        i <= word_end(s, i) <= s.len(),
        i < s.len() && !is_white_space(s[i]) ==> i < word_end(s, i),
    decreases s.len() - i,
{
    if i < s.len() && !is_white_space(s[i]) {
        word_end_bounds(s, i + 1);
    }
}

/// The words of `s` from position `i` on: its longest runs without white
/// space, in order.
pub open spec fn words_from(s: Seq<char>, i: int) -> Seq<Seq<char>>
    decreases s.len() - i,
    via words_from_decreases
{
    if i < 0 || i >= s.len() {
        Seq::empty()
    } else if is_white_space(s[i]) {
        words_from(s, i + 1)
    } else {
        seq![s.subrange(i, word_end(s, i))] + words_from(s, word_end(s, i))
    }
}

#[via_fn]
proof fn words_from_decreases(s: Seq<char>, i: int) {
    if 0 <= i < s.len() {
        word_end_bounds(s, i);
    }
}

/// The words of `s`: what `str::split_whitespace` yields.
pub open spec fn words(s: Seq<char>) -> Seq<Seq<char>> {
    words_from(s, 0)
}

/// Splits a text into its words, at white space of any length.
pub fn split_whitespace(text: &str) -> (found: Vec<String>)
    ensures
        texts(found@) == words(text@),
{
    let chars = chars_of(text);
    let mut found: Vec<String> = Vec::new();
    let mut i: usize = 0;
    while i < chars.len()
        invariant
            i <= chars.len(),
            texts(found@) + words_from(chars@, i as int) == words(chars@),
        decreases chars.len() - i,
    {
        if chars[i].is_whitespace() {
            i += 1;
        } else {
            let mut end: usize = i + 1;
            proof {
                word_end_bounds(chars@, i as int);
            }
            while end < chars.len() && !chars[end].is_whitespace()
                invariant
                    i < end <= chars.len(),
                    word_end(chars@, end as int) == word_end(chars@, i as int),
                decreases chars.len() - end,
            {
                end += 1;
            }
            let word = string_of(&chars, i, end);
            proof {
                let before = texts(found@);
                assert(texts(found@.push(word)) =~= before.push(word@));
                assert(before.push(word@) + words_from(chars@, end as int) =~= before
                    + words_from(chars@, i as int));
            }
            found.push(word);
            i = end;
        }
    }
    assert(texts(found@) + words_from(chars@, i as int) =~= texts(found@));
    found
}

/// `parts` written one after the other with `sep` between each two.
pub open spec fn joined(parts: Seq<Seq<char>>, sep: Seq<char>) -> Seq<char>
    decreases parts.len(),
{
    if parts.len() == 0 {
        Seq::empty()
    } else if parts.len() == 1 {
        parts[0]
    } else {
        joined(parts.drop_last(), sep) + sep + parts.last()
    }
}

/// Writes `parts` one after the other with `sep` between each two.
pub fn join(parts: &Vec<String>, sep: &str) -> (whole: String)
    ensures
        whole@ == joined(texts(parts@), sep@),
{
    let mut whole = String::new();
    let mut i: usize = 0;
    while i < parts.len()
        invariant
            i <= parts.len(),
            whole@ == joined(texts(parts@).take(i as int), sep@),
        decreases parts.len() - i,
    {
        proof {
            let all = texts(parts@);
            assert(all.take(i + 1).drop_last() =~= all.take(i as int));
            assert(all.take(i + 1).last() == parts@[i as int]@);
        }
        if i > 0 {
            whole.append(sep);
        }
        whole.append(parts[i].as_str());
        i += 1;
    }
    assert(texts(parts@).take(i as int) =~= texts(parts@));
    whole
}

/// `s` from position `i` on, with `with` in place of every `c`.
pub open spec fn replaced(s: Seq<char>, c: char, with: Seq<char>, i: int) -> Seq<char>
    decreases s.len() - i,
{
    if i < 0 || i >= s.len() {
        Seq::empty()
    } else if s[i] == c {
        with + replaced(s, c, with, i + 1)
    } else {
        seq![s[i]] + replaced(s, c, with, i + 1)
    }
}

/// `text` with `with` in place of every `c`.
pub fn replace_char(text: &str, c: char, with: &str) -> (out: String)
    ensures
        out@ == replaced(text@, c, with@, 0),
{
    let chars = chars_of(text);
    let mut out = String::new();
    let mut i: usize = 0;
    while i < chars.len()
        invariant
            i <= chars.len(),
            out@ + replaced(chars@, c, with@, i as int) == replaced(chars@, c, with@, 0),
        decreases chars.len() - i,
    {
        let ghost before = out@;
        if chars[i] == c {
            out.append(with);
            assert((before + with@) + replaced(chars@, c, with@, i + 1) =~= before + replaced(
                chars@,
                c,
                with@,
                i as int,
            ));
        } else {
            out.push(chars[i]);
            assert(before.push(chars@[i as int]) + replaced(chars@, c, with@, i + 1) =~= before
                + replaced(chars@, c, with@, i as int));
        }
        i += 1;
    }
    assert(out@ + replaced(chars@, c, with@, i as int) =~= out@);
    out
}

/// A word holds a character and no white space.
pub proof fn words_hold_no_space(s: Seq<char>, i: int, k: int)
    requires
        0 <= i <= s.len(),
        0 <= k < words_from(s, i).len(),
    ensures
        words_from(s, i)[k].len() > 0,
        forall|j: int|
            0 <= j < words_from(s, i)[k].len() ==> !is_white_space(#[trigger] words_from(s, i)[k][j]),
    decreases s.len() - i,
{
    if i < s.len() {
        if is_white_space(s[i]) {
            words_hold_no_space(s, i + 1, k);
        } else {
            word_end_bounds(s, i);
            word_holds_no_space(s, i);
            if k > 0 {
                words_hold_no_space(s, word_end(s, i), k - 1);
            }
        }
    }
}

/// From its start to its end a word holds no white space.
pub proof fn word_holds_no_space(s: Seq<char>, i: int)
    requires
        0 <= i <= s.len(),
    ensures
        forall|j: int| i <= j < word_end(s, i) ==> !is_white_space(#[trigger] s[j]),
    decreases s.len() - i,
{
    if i < s.len() && !is_white_space(s[i]) {
        word_holds_no_space(s, i + 1);
    }
}

/// What `replaced` gives holds `c` only where `with` does.
pub proof fn replaced_holds_no(s: Seq<char>, c: char, with: Seq<char>, i: int)
    requires
        0 <= i <= s.len(),
        !with.contains(c),
    ensures
        !replaced(s, c, with, i).contains(c),
    decreases s.len() - i,
{
    if i < s.len() {
        replaced_holds_no(s, c, with, i + 1);
        let rest = replaced(s, c, with, i + 1);
        let front = if s[i] == c {
            with
        } else {
            seq![s[i]]
        };
        assert(replaced(s, c, with, i) == front + rest);
        assert forall|k: int| 0 <= k < (front + rest).len() implies (front + rest)[k] != c by {
            if k < front.len() {
                assert(front.contains(front[k]));
            } else {
                assert(rest.contains(rest[k - front.len()]));
            }
        }
    }
}

/// A run without white space that ends at white space, or at the end of
/// `s`, is a word: it ends where the run ends.
pub proof fn word_end_of_run(s: Seq<char>, i: int, end: int)
    requires
        0 <= i <= end <= s.len(),
        forall|j: int| i <= j < end ==> !is_white_space(#[trigger] s[j]),
        end < s.len() ==> is_white_space(s[end]),
    ensures
        word_end(s, i) == end,
    decreases end - i,
{
    if i < end {
        word_end_of_run(s, i + 1, end);
    }
}

/// A space parts words: two words with one space between them are the two
/// words of the text.
pub proof fn space_parts_words(a: Seq<char>, b: Seq<char>)
    requires
        a.len() > 0,
        b.len() > 0,
        forall|j: int| 0 <= j < a.len() ==> !is_white_space(#[trigger] a[j]),
        forall|j: int| 0 <= j < b.len() ==> !is_white_space(#[trigger] b[j]),
    ensures
        words(a + seq![' '] + b) == seq![a, b],
{
    let s = a + seq![' '] + b;
    let mid = a.len() as int;
    let len = s.len() as int;
    assert(s[mid] == ' ');
    assert forall|j: int| 0 <= j < mid implies !is_white_space(#[trigger] s[j]) by {
        assert(s[j] == a[j]);
    }
    assert forall|j: int| mid + 1 <= j < len implies !is_white_space(#[trigger] s[j]) by {
        assert(s[j] == b[j - mid - 1]);
    }
    word_end_of_run(s, 0, mid);
    word_end_of_run(s, mid + 1, len);
    assert(s.subrange(0, mid) =~= a);
    assert(s.subrange(mid + 1, len) =~= b);
    assert(words_from(s, len) =~= Seq::<Seq<char>>::empty());
    assert(words_from(s, mid + 1) =~= seq![b]);
    assert(words_from(s, mid) == words_from(s, mid + 1));
    assert(words_from(s, 0) =~= seq![a, b]);
}

} // verus!
