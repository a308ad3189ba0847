//! One entry of the listing, and whether a query finds it.

use crate::record::Mod;
use crate::text::{
    chars_of, contains, is_substring, is_white_space, join, joined, lowercase_of, replace_char,
    replaced, replaced_holds_no, space_parts_words, split_whitespace, texts, words,
};
use vstd::prelude::*;

verus! {

/// A record as an entry of the listing.
#[derive(Clone, Debug, PartialEq, Eq)]
pub struct ListingItem(pub Mod);

/// The lower case of each of `fields`.
pub open spec fn lowered(fields: Seq<Seq<char>>) -> Seq<Seq<char>> {
    fields.map_values(|f: Seq<char>| lowercase_of(f))
}

/// The characters of each of `fields`.
pub open spec fn char_views(fields: Seq<Vec<char>>) -> Seq<Seq<char>> {
    fields.map_values(|f: Vec<char>| f@)
}

/// Whether one of `fields` holds `word`.
pub open spec fn found_in(fields: Seq<Seq<char>>, word: Seq<char>) -> bool {
    exists|k: int| 0 <= k < fields.len() && contains(#[trigger] fields[k], word)
}

fn lower_chars(text: &str) -> (lower: Vec<char>)
    ensures
        lower@ == lowercase_of(text@),
{
    let lower = text.to_lowercase();
    chars_of(lower.as_str())
}

/// Whether one of `fields` holds `word`.
pub fn any_holds(fields: &Vec<Vec<char>>, word: &Vec<char>) -> (found: bool)
    ensures
        found == found_in(char_views(fields@), word@),
{
    let mut k: usize = 0;
    while k < fields.len()
        invariant
            k <= fields.len(),
            forall|j: int| 0 <= j < k ==> !contains(#[trigger] char_views(fields@)[j], word@),
        decreases fields.len() - k,
    {
        if is_substring(&fields[k], word) {
            assert(contains(char_views(fields@)[k as int], word@));
            return true;
        }
        k += 1;
    }
    false
}

/// Whether each of `wanted` stands in one of `fields`. Where nothing is
/// wanted, nothing is missing.
pub fn matches_words(fields: &Vec<Vec<char>>, wanted: &Vec<Vec<char>>) -> (shown: bool)
    ensures
        shown == (forall|i: int|
            0 <= i < wanted@.len() ==> found_in(char_views(fields@), #[trigger] wanted@[i]@)),
{
    let mut i: usize = 0;
    while i < wanted.len()
        invariant
            i <= wanted.len(),
            forall|j: int| 0 <= j < i ==> found_in(char_views(fields@), #[trigger] wanted@[j]@),
        decreases wanted.len() - i,
    {
        if !any_holds(fields, &wanted[i]) {
            assert(!found_in(char_views(fields@), wanted@[i as int]@));
            return false;
        }
        i += 1;
    }
    true
}

fn lower_words(words: &Vec<String>) -> (lower: Vec<Vec<char>>)
    ensures
        char_views(lower@) == lowered(texts(words@)),
{
    let mut lower: Vec<Vec<char>> = Vec::new();
    let mut i: usize = 0;
    while i < words.len()
        invariant
            i <= words.len(),
            char_views(lower@) == lowered(texts(words@).take(i as int)),
        decreases words.len() - i,
    {
        let ghost before = char_views(lower@);
        let word = lower_chars(words[i].as_str());
        lower.push(word);
        i += 1;
        proof {
            let taken = texts(words@).take(i as int);
            assert(taken.drop_last() =~= texts(words@).take(i - 1));
            assert(taken.last() == words@[i - 1]@);
            assert(char_views(lower@) =~= before.push(word@));
            assert(lowered(taken) =~= lowered(taken.drop_last()).push(lowercase_of(taken.last())));
        }
    }
    assert(texts(words@).take(i as int) =~= texts(words@));
    lower
}

impl ListingItem {
    /// The texts that a query is looked for in: author, description,
    /// repository, readme, and the kinds of content and of assets, each list
    /// joined by spaces.
    pub open spec fn haystacks(&self) -> Seq<Seq<char>> {
        seq![
            self.0.author@,
            self.0.desc@,
            self.0.repo@,
            self.0.readme@,
            joined(texts(self.0.contents@), " "@),
            joined(texts(self.0.assets@), " "@),
        ]
    }

    /// Whether `word` stands in one of the haystacks, case ignored.
    pub open spec fn finds(&self, word: Seq<char>) -> bool {
        found_in(lowered(self.haystacks()), lowercase_of(word))
    }

    /// Whether every word of `query` stands in one of the haystacks, case
    /// ignored. A query without words matches every record.
    pub open spec fn matches(&self, query: Seq<char>) -> bool {
        forall|i: int| 0 <= i < words(query).len() ==> self.finds(#[trigger] words(query)[i])
    }

    fn lowered_haystacks(&self) -> (fields: Vec<Vec<char>>)
        ensures
            char_views(fields@) == lowered(self.haystacks()),
    {
        let contents = join(&self.0.contents, " ");
        let assets = join(&self.0.assets, " ");
        let mut fields: Vec<Vec<char>> = Vec::new();
        fields.push(lower_chars(self.0.author.as_str()));
        fields.push(lower_chars(self.0.desc.as_str()));
        fields.push(lower_chars(self.0.repo.as_str()));
        fields.push(lower_chars(self.0.readme.as_str()));
        fields.push(lower_chars(contents.as_str()));
        fields.push(lower_chars(assets.as_str()));
        assert(char_views(fields@) =~= lowered(self.haystacks()));
        fields
    }

    /// Whether the entry is shown under `query`: whether each of the query's
    /// words, split at white space, stands in the author, the description,
    /// the repository, the readme, the kinds of content or the kinds of
    /// assets. Upper and lower case are the same.
    pub fn filtering(&self, query: &str) -> (shown: bool)
        ensures
            shown == self.matches(query@),
    {
        let parts = split_whitespace(query);
        if parts.len() == 0 {
            return true;
        }
        let fields = self.lowered_haystacks();
        let wanted = lower_words(&parts);
        let shown = matches_words(&fields, &wanted);
        proof {
            let all = words(query@);
            assert(char_views(wanted@).len() == lowered(all).len());
            assert(wanted@.len() == all.len());
            assert forall|i: int| 0 <= i < all.len() implies (self.finds(all[i]) <==> found_in(
                char_views(fields@),
                #[trigger] wanted@[i]@,
            )) by {
                assert(char_views(wanted@)[i] == wanted@[i]@);
                assert(lowered(all)[i] == lowercase_of(all[i]));
            }
            if shown {
                assert forall|i: int| 0 <= i < all.len() implies self.finds(#[trigger] all[i]) by {
                    assert(found_in(char_views(fields@), wanted@[i]@));
                }
            }
            if self.matches(query@) {
                assert forall|i: int| 0 <= i < wanted@.len() implies found_in(
                    char_views(fields@),
                    #[trigger] wanted@[i]@,
                ) by {
                    assert(self.finds(all[i]));
                }
            }
        }
        shown
    }

    /// The repository with `--` in place of each `/`: the name by which an
    /// entry is found again.
    pub open spec fn spec_endpoint_query(&self) -> Seq<char> {
        replaced(self.0.repo@, '/', "--"@, 0)
    }

    /// The name of the entry in the address of its overview; it serves as
    /// the entry's identifier.
    pub fn endpoint_query(&self) -> (id: String)
        ensures
            id@ == self.spec_endpoint_query(),
    {
        replace_char(self.0.repo.as_str(), '/', "--")
    }

    /// The identifier holds no `/`, so that it can stand in an address.
    pub proof fn identifier_holds_no_slash(&self)
        ensures
            !self.spec_endpoint_query().contains('/'),
    {
        reveal_strlit("--");
        assert forall|k: int| 0 <= k < "--"@.len() implies "--"@[k] != '/' by {}
        replaced_holds_no(self.0.repo@, '/', "--"@, 0);
    }

    /// A query of two words matches where both words are found, and only
    /// there.
    pub proof fn two_words_need_both(&self, a: Seq<char>, b: Seq<char>)
        requires
            a.len() > 0,
            b.len() > 0,
            forall|j: int| 0 <= j < a.len() ==> !is_white_space(#[trigger] a[j]),
            forall|j: int| 0 <= j < b.len() ==> !is_white_space(#[trigger] b[j]),
        ensures
            self.matches(a + seq![' '] + b) <==> self.finds(a) && self.finds(b),
    {
        space_parts_words(a, b);
        let all = words(a + seq![' '] + b);
        assert(all[0] == a && all[1] == b);
    }

    /// Filter monotonicity: where every word of `loose` is a word of
    /// `strict`, an entry that `strict` finds is found by `loose` too.
    pub proof fn filter_is_monotone(&self, loose: Seq<char>, strict: Seq<char>)
        requires
            forall|i: int|
                0 <= i < words(loose).len() ==> words(strict).contains(#[trigger] words(loose)[i]),
            self.matches(strict),
        ensures
            self.matches(loose),
    {
        assert forall|i: int| 0 <= i < words(loose).len() implies self.finds(
            #[trigger] words(loose)[i],
        ) by {
            let word = words(loose)[i];
            assert(words(strict).contains(word));
            let j = choose|j: int| 0 <= j < words(strict).len() && words(strict)[j] == word;
            assert(self.finds(words(strict)[j]));
        }
    }

    /// The empty query has no words, so it matches every entry.
    pub proof fn empty_query_matches(&self)
        ensures
            self.matches(Seq::empty()),
    {
    }
}

} // verus!

