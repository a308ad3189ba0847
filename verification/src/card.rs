//! What is shown of one entry: its links, its picture, its texts rendered
//! from their markup, and the age of its last commit.

use crate::date::{age, age_of, may_be_refused, rfc3339_weak, Timestamp};
use crate::listing::ListingItem;
use crate::markup::tokens_of;
use crate::render::{from_str, rendered, spans, Segment, Span};
use crate::text::{chars_of, find_char, position_of, same_text, string_of, texts};
use vstd::prelude::*;
use vstd::string::StringExecFns;

verus! {

/// Where to take the picture of an entry from.
#[derive(Clone, Debug, PartialEq, Eq)]
pub struct Icon {
    /// The address of the picture.
    pub src: String,
    /// Whether a placeholder stands in where the picture cannot be had.
    pub placeholder_on_error: bool,
}

/// The version of an entry, as it is shown.
#[derive(Clone, Debug, PartialEq, Eq)]
pub struct VersionLabel {
    /// What stands before the number: `"v"` where there is a version.
    pub prefix: String,
    /// The number, rendered from its markup.
    pub number: Vec<Segment>,
}

/// All that is shown of an entry in the listing.
#[derive(Clone, Debug, PartialEq, Eq)]
pub struct Card {
    /// The identifier of the entry: where a click on it leads.
    pub id: String,
    /// The picture.
    pub icon: Icon,
    /// The title.
    pub title: Vec<Segment>,
    /// The author.
    pub author: Vec<Segment>,
    /// The version.
    pub version: VersionLabel,
    /// The age of the last commit.
    pub last_commit: String,
    /// The description.
    pub description: Vec<Segment>,
    /// The link to the repository.
    pub repo_link: String,
    /// The link to the archive.
    pub archive_link: String,
    /// The link to the wiki.
    pub wiki_link: Option<String>,
    /// The kinds of assets to list.
    pub assets: Vec<String>,
    /// The kinds of content to list.
    pub contents: Vec<String>,
    /// The number of stars.
    pub star_count: u32,
    /// The row of stars.
    pub stars: String,
}

/// All that is shown of an entry on its own page.
#[derive(Clone, Debug, PartialEq, Eq)]
pub struct Overview {
    /// The entry as the listing shows it.
    pub card: Card,
    /// The readme, to be shown below it.
    pub readme: String,
}

/// `tags` without the tag `content`, in order.
pub open spec fn shown_tags(tags: Seq<Seq<char>>) -> Seq<Seq<char>>
    decreases tags.len(),
{
    if tags.len() == 0 {
        Seq::empty()
    } else if tags.last() == "content"@ {
        shown_tags(tags.drop_last())
    } else {
        shown_tags(tags.drop_last()).push(tags.last())
    }
}

/// The tags to list for an entry: all but the tag `content`, which every
/// entry would carry. Where none is left there is no list to show.
pub fn tiny_list(tags: &Vec<String>) -> (shown: Vec<String>)
    ensures
        texts(shown@) == shown_tags(texts(tags@)),
{
    let mut shown: Vec<String> = Vec::new();
    let mut i: usize = 0;
    while i < tags.len()
        invariant
            i <= tags.len(),
            texts(shown@) == shown_tags(texts(tags@).take(i as int)),
        decreases tags.len() - i,
    {
        proof {
            let all = texts(tags@);
            assert(all.take(i + 1).drop_last() =~= all.take(i as int));
            assert(all.take(i + 1).last() == tags@[i as int]@);
        }
        let tag = chars_of(tags[i].as_str());
        if !same_text(&tag, "content") {
            let ghost before = texts(shown@);
            let kept = tags[i].clone();
            shown.push(kept);
            assert(texts(shown@) =~= before.push(tags@[i as int]@));
        }
        i += 1;
    }
    assert(texts(tags@).take(i as int) =~= texts(tags@));
    shown
}

/// The row of stars for a count: one hollow star for none, else a full
/// star for each.
pub open spec fn star_row(stars: u32) -> Seq<char> {
    if stars == 0 {
        seq!['\u{2606}']
    } else {
        Seq::new(stars as nat, |i: int| '\u{2605}')
    }
}

impl ListingItem {
    /// The address of the entry's own page.
    pub fn endpoint_href(&self) -> (href: String)
        ensures
            href@ == "m/"@ + self.spec_endpoint_query() + ".html"@,
    {
        let mut href = String::from_str("m/");
        href.append(self.endpoint_query().as_str());
        href.append(".html");
        href
    }

    /// The link to the archive of the repository.
    pub fn archive_link(&self) -> (link: String)
        ensures
            link@ == self.0.spec_archive_link(),
    {
        self.0.archive_link()
    }

    /// The link to the repository.
    pub fn repo_link(&self) -> (link: &str)
        ensures
            link@ == self.0.link@,
    {
        self.0.link.as_str()
    }

    /// The link to the wiki, where the record has one.
    pub fn wiki_link(&self) -> (link: Option<&str>)
        ensures
            match link {
                Some(l) => self.0.wiki matches Some(w) && l@ == w@,
                None => self.0.wiki is None,
            },
    {
        match &self.0.wiki {
            Some(w) => Some(w.as_str()),
            None => None,
        }
    }

    /// The owner of the repository: what stands before the first `/`.
    pub open spec fn owner(&self) -> Seq<char> {
        self.0.repo@.subrange(0, position_of(self.0.repo@, '/', 0))
    }

    /// Whether the record names an icon of its own.
    pub open spec fn has_icon(&self) -> bool {
        self.0.icon matches Some(path) && path@.len() > 0
    }

    /// The address of the entry's picture: the record's own icon, taken
    /// from the main branch of its repository, else the picture of the
    /// repository's owner.
    pub open spec fn icon_src(&self) -> Seq<char> {
        if self.has_icon() {
            "https://raw.githubusercontent.com/"@ + self.0.repo@ + "/master/"@
                + self.0.icon.unwrap()@
        } else {
            "https://github.com/"@ + self.owner() + ".png?size=64"@
        }
    }

    fn owner_icon(&self) -> (icon: Icon)
        ensures
            icon.src@ == "https://github.com/"@ + self.owner() + ".png?size=64"@,
            !icon.placeholder_on_error,
    {
        let repo = chars_of(self.0.repo.as_str());
        let slash = find_char(&repo, '/', 0);
        let owner = string_of(&repo, 0, slash);
        let mut src = String::from_str("https://github.com/");
        src.append(owner.as_str());
        src.append(".png?size=64");
        Icon { src, placeholder_on_error: false }
    }

    /// The picture of the entry. An icon of the record's own may be missing
    /// from the repository, so a placeholder stands by for it.
    pub fn icon(&self) -> (icon: Icon)
        ensures
            icon.src@ == self.icon_src(),
            icon.placeholder_on_error == self.has_icon(),
    {
        match &self.0.icon {
            None => self.owner_icon(),
            Some(path) => {
                if path.as_str().is_empty() {
                    self.owner_icon()
                } else {
                    let mut src = String::from_str("https://raw.githubusercontent.com/");
                    src.append(self.0.repo.as_str());
                    src.append("/master/");
                    src.append(path.as_str());
                    Icon { src, placeholder_on_error: true }
                }
            },
        }
    }

    /// The markup of the description; none where the record has none.
    pub open spec fn description_spans(&self) -> Seq<Span> {
        match self.0.desc_markup {
            Some(text) => rendered(tokens_of(text@), Seq::empty()),
            None => Seq::empty(),
        }
    }

    /// The description, rendered from its markup.
    pub fn description(&self) -> (segments: Vec<Segment>)
        ensures
            spans(segments@) == self.description_spans(),
    {
        match &self.0.desc_markup {
            Some(text) => from_str(text.as_str()),
            None => {
                let none: Vec<Segment> = Vec::new();
                assert(spans(none@) =~= Seq::<Span>::empty());
                none
            },
        }
    }

    /// The markup of the author; `null` where the record has none.
    pub open spec fn author_markup(&self) -> Seq<char> {
        match self.0.author_markup {
            Some(text) => text@,
            None => "null"@,
        }
    }

    /// The author, rendered from its markup.
    pub fn by_author(&self) -> (segments: Vec<Segment>)
        ensures
            spans(segments@) == rendered(tokens_of(self.author_markup()), Seq::empty()),
    {
        match &self.0.author_markup {
            Some(text) => from_str(text.as_str()),
            None => from_str("null"),
        }
    }

    /// The markup of the version; empty where the record has none.
    pub open spec fn version_markup(&self) -> Seq<char> {
        match self.0.version {
            Some(text) => text@,
            None => Seq::empty(),
        }
    }

    /// The version, rendered from its markup, behind a `v` where the record
    /// has one.
    pub fn v_number(&self) -> (label: VersionLabel)
        ensures
            label.prefix@ == (if self.0.version is Some {
                seq!['v']
            } else {
                Seq::empty()
            }),
            spans(label.number@) == rendered(tokens_of(self.version_markup()), Seq::empty()),
    {
        let mut prefix = String::new();
        match &self.0.version {
            Some(text) => {
                prefix.push('v');
                VersionLabel { prefix, number: from_str(text.as_str()) }
            },
            None => {
                let empty = String::new();
                VersionLabel { prefix, number: from_str(empty.as_str()) }
            },
        }
    }

    /// The title, rendered from the markup of the name.
    pub fn title_link(&self) -> (segments: Vec<Segment>)
        ensures
            spans(segments@) == rendered(tokens_of(self.0.name_markup@), Seq::empty()),
    {
        from_str(self.0.name_markup.as_str())
    }

    /// The row of stars of the entry.
    pub fn stars_el(&self) -> (row: String)
        ensures
            row@ == star_row(self.0.stars),
    {
        let mut row = String::new();
        if self.0.stars == 0 {
            row.push('\u{2606}');
            assert(row@ =~= star_row(0));
            return row;
        }
        let mut i: u32 = 0;
        while i < self.0.stars
            invariant
                i <= self.0.stars,
                row@ == Seq::new(i as nat, |k: int| '\u{2605}'),
            decreases self.0.stars - i,
        {
            row.push('\u{2605}');
            i += 1;
            assert(row@ =~= Seq::new(i as nat, |k: int| '\u{2605}'));
        }
        row
    }

    /// The age of the last commit at the time `now`, as it is shown.
    pub fn last_commit(&self, now: Timestamp) -> (text: String)
        ensures
            self.is_age(text@, now.total()),
    {
        age(self.0.date.as_str(), now)
    }

    /// Whether `text` may be shown as the age of the last commit at the
    /// time `now`, given in nanoseconds since 1970-01-01T00:00:00Z.
    pub open spec fn is_age(&self, text: Seq<char>, now: int) -> bool {
        text == age_of(self.0.date@, now) || (rfc3339_weak(self.0.date@) matches Some(parts)
            && may_be_refused(parts.0) && text == "formatting error"@)
    }

    /// Whether `card` shows this entry at the time `now`, given in
    /// nanoseconds since 1970-01-01T00:00:00Z.
    pub open spec fn is_card(&self, card: Card, now: int) -> bool {
        &&& card.id@ == self.spec_endpoint_query()
        &&& card.icon.src@ == self.icon_src()
        &&& card.icon.placeholder_on_error == self.has_icon()
        &&& spans(card.title@) == rendered(tokens_of(self.0.name_markup@), Seq::empty())
        &&& spans(card.author@) == rendered(tokens_of(self.author_markup()), Seq::empty())
        &&& card.version.prefix@ == (if self.0.version is Some {
            seq!['v']
        } else {
            Seq::empty()
        })
        &&& spans(card.version.number@) == rendered(
            tokens_of(self.version_markup()),
            Seq::empty(),
        )
        &&& self.is_age(card.last_commit@, now)
        &&& spans(card.description@) == self.description_spans()
        &&& card.repo_link@ == self.0.link@
        &&& card.archive_link@ == self.0.spec_archive_link()
        &&& match card.wiki_link {
            Some(link) => self.0.wiki matches Some(wiki) && link@ == wiki@,
            None => self.0.wiki is None,
        }
        &&& texts(card.assets@) == shown_tags(texts(self.0.assets@))
        &&& texts(card.contents@) == shown_tags(texts(self.0.contents@))
        &&& card.star_count == self.0.stars
        &&& card.stars@ == star_row(self.0.stars)
    }

    /// All that the listing shows of the entry at the time `now`.
    pub fn listing_item(&self, now: Timestamp) -> (card: Card)
        ensures
            self.is_card(card, now.total()),
    {
        Card {
            id: self.endpoint_query(),
            icon: self.icon(),
            title: self.title_link(),
            author: self.by_author(),
            version: self.v_number(),
            last_commit: self.last_commit(now),
            description: self.description(),
            repo_link: self.0.link.clone(),
            archive_link: self.archive_link(),
            wiki_link: match &self.0.wiki {
                Some(wiki) => Some(wiki.clone()),
                None => None,
            },
            assets: tiny_list(&self.0.assets),
            contents: tiny_list(&self.0.contents),
            star_count: self.0.stars,
            stars: self.stars_el(),
        }
    }

    /// All that the entry's own page shows at the time `now`: the entry as
    /// in the listing, and its readme.
    pub fn overview_item(&self, now: Timestamp) -> (page: Overview)
        ensures
            self.is_card(page.card, now.total()),
            page.readme@ == self.0.readme@,
    {
        Overview { card: self.listing_item(now), readme: self.0.readme.clone() }
    }
}

} // verus!
