//! Events from outside the directory: the page that an address names,
//! the reading of the scroll position, and where the data set is.

use crate::model::Page;
use crate::text::{chars_of, find_char, position_of, same_text, slice_of, string_of};
use crate::update::Msg;
use vstd::prelude::*;
use vstd::string::StringExecFns;

verus! {

/// The value of the parameter `mod` in one `key=value` pair of a query:
/// what stands between the first `=` and the next, where the key is `mod`
/// and an `=` follows it.
pub open spec fn mod_value(pair: Seq<char>) -> Option<Seq<char>> {
    let eq = position_of(pair, '=', 0);
    if pair.subrange(0, eq) == "mod"@ && eq < pair.len() {
        Some(pair.subrange(eq + 1, position_of(pair, '=', eq + 1)))
    } else {
        None
    }
}

/// The value of the first parameter `mod` among the pairs of `query` that
/// start at or after `i`. Pairs are parted by `&`.
pub open spec fn find_mod(query: Seq<char>, i: int) -> Option<Seq<char>>
    decreases query.len() - i,
    via find_mod_decreases
{
    if i < 0 || i > query.len() {
        None
    } else {
        let end = position_of(query, '&', i);
        match mod_value(query.subrange(i, end)) {
            Some(value) => Some(value),
            None => if end >= query.len() {
                None
            } else {
                find_mod(query, end + 1)
            },
        }
    }
}

#[via_fn]
proof fn find_mod_decreases(query: Seq<char>, i: int) {
    if 0 <= i <= query.len() {
        crate::text::position_of_bounds(query, '&', i);
    }
}

/// The page that a query asks for: the overview of the entry that its
/// parameter `mod` names, else the listing.
pub open spec fn page_of(search: Option<Seq<char>>) -> Option<Seq<char>> {
    match search {
        Some(query) => find_mod(query, 0),
        None => None,
    }
}

fn read_mod_value(pair: &Vec<char>) -> (value: Option<String>)
    ensures
        match value {
            Some(v) => mod_value(pair@) == Some(v@),
            None => mod_value(pair@) is None,
        },
{
    let eq = find_char(pair, '=', 0);
    let key = slice_of(pair, 0, eq);
    if same_text(&key, "mod") && eq < pair.len() {
        let end = find_char(pair, '=', eq + 1);
        Some(string_of(pair, eq + 1, end))
    } else {
        None
    }
}

/// The event that an address leads to: show the overview of the entry that
/// the parameter `mod` of its query names, or else the listing.
pub fn routes(search: Option<&str>) -> (msg: Option<Msg>)
    ensures
        msg matches Some(Msg::ChangePage(page)) && match page_of(
            match search {
                Some(q) => Some(q@),
                None => None,
            },
        ) {
            Some(name) => page matches Page::Overview(id) && id@ == name,
            None => page is Listing,
        },
{
    let query = match search {
        Some(q) => chars_of(q),
        None => {
            return Some(Msg::ChangePage(Page::Listing));
        },
    };
    let mut i: usize = 0;
    loop
        invariant
            i <= query.len(),
            search matches Some(q) && q@ == query@,
            find_mod(query@, i as int) == find_mod(query@, 0),
        decreases query.len() - i,
    {
        let end = find_char(&query, '&', i);
        let pair = slice_of(&query, i, end);
        match read_mod_value(&pair) {
            Some(name) => {
                return Some(Msg::ChangePage(Page::Overview(name)));
            },
            None => {},
        }
        if end >= query.len() {
            return Some(Msg::ChangePage(Page::Listing));
        }
        i = end + 1;
    }
}

/// The event that a reading of the scroll position leads to. Without a
/// reading, scrolling cannot be followed.
pub fn scroll_msg(reading: Option<(i64, i64, i64)>) -> (msg: Msg)
    ensures
        msg == (match reading {
            Some((scroll, height, offset)) => Msg::Scroll { scroll, height, offset },
            None => Msg::ScrollError,
        }),
{
    match reading {
        Some((scroll, height, offset)) => Msg::Scroll { scroll, height, offset },
        None => Msg::ScrollError,
    }
}

/// Where the data set is fetched from.
pub fn data_path() -> (path: String)
    ensures
        path@ == "data/modmeta."@ + crate::record::MOD_VERSION@ + ".json"@,
{
    let mut path = String::from_str("data/modmeta.");
    path.append(crate::record::MOD_VERSION);
    path.append(".json");
    path
}

} // verus!
