//! The state of the listing: the record set, the sort order, the filter,
//! the page, and the number of entries to show at most; and what of it is
//! visible.

use crate::growth::{rest, rested, Growth};
use crate::listing::ListingItem;
use crate::order::{
    is_descending, is_listing_order, listing_order, order_of_first_is_ordered, precedes,
    sort_listing,
};
use crate::text::{chars_of, same_text, words};
use vstd::prelude::*;

verus! {

/// The number of entries that a fresh listing shows at most.
pub const DEFAULT_MAX_COUNT: usize = 8;

/// The number of entries to show at most.
#[derive(Clone, Copy, Debug, PartialEq, Eq, Structural)]
pub struct MaxCount(pub usize);

impl Default for MaxCount {
    fn default() -> (count: MaxCount)
        ensures
            count == MaxCount(DEFAULT_MAX_COUNT),
    {
        MaxCount(DEFAULT_MAX_COUNT)
    }
}

/// A page of the directory.
#[derive(Clone, Debug, PartialEq, Eq)]
pub enum Page {
    /// One entry in full, named by its identifier (`owner--repo`).
    Overview(String),
    /// The listing of all entries.
    Listing,
}

impl Default for Page {
    fn default() -> (page: Page)
        ensures
            page == Page::Listing,
    {
        Page::Listing
    }
}

/// What the listing is sorted by, highest first.
#[derive(Clone, Copy, Debug, PartialEq, Eq, Structural)]
pub enum Sorting {
    /// The stars of the repository.
    Stars,
    /// The time of the last commit.
    Commit,
}

impl Default for Sorting {
    fn default() -> (sorting: Sorting)
        ensures
            sorting == Sorting::Commit,
    {
        Sorting::Commit
    }
}

/// The state of the directory.
#[derive(Clone, Debug, PartialEq, Eq)]
pub struct Model {
    /// The record set.
    pub data: Vec<ListingItem>,
    /// What the listing is sorted by.
    pub sorting: Sorting,
    /// The text whose words filter the listing.
    pub filtering: Option<String>,
    /// The page that is shown.
    pub page: Page,
    /// The number of entries to show at most.
    pub max_count: MaxCount,
    /// Where the growth of the listing stands.
    pub growth: Growth,
}

/// The key by which an entry is sorted: its stars, or the time of its last
/// commit.
pub open spec fn sort_key(item: ListingItem, sorting: Sorting) -> u64 {
    match sorting {
        Sorting::Stars => item.0.stars as u64,
        Sorting::Commit => item.0.date_tt,
    }
}

/// What is shown: one entry in full, or the entries of the listing.
pub enum Screen<'a> {
    /// The entry that the page names.
    Overview(&'a ListingItem),
    /// The visible entries of the listing, in order.
    Listing(Vec<&'a ListingItem>),
}

impl Model {
    /// A directory without records: sorted by last commit, unfiltered, on
    /// the listing, with the default number of entries.
    pub fn new() -> (model: Model)
        ensures
            model.data@.len() == 0,
            model.sorting == Sorting::Commit,
            model.filtering is None,
            model.page == Page::Listing,
            model.max_count == MaxCount(DEFAULT_MAX_COUNT),
            model.growth == Growth::Idle,
    {
        Model {
            data: Vec::new(),
            sorting: Sorting::default(),
            filtering: None,
            page: Page::default(),
            max_count: MaxCount::default(),
            growth: Growth::Idle,
        }
    }

    /// The state with the number of entries back at the default. Growth is
    /// back at `Idle`, but for `Errored`, which nothing leaves.
    pub open spec fn reset(self) -> Model {
        Model { max_count: MaxCount(DEFAULT_MAX_COUNT), growth: rested(self.growth), ..self }
    }

    /// The state with another sort order.
    pub open spec fn sorted_by(self, sorting: Sorting) -> Model {
        Model { sorting, ..self.reset() }
    }

    /// The state with another filter.
    pub open spec fn filtered_by(self, query: String) -> Model {
        Model { filtering: Some(query), ..self.reset() }
    }

    /// The state on another page. Going to the listing sets the number of
    /// entries back; going to an overview leaves it.
    pub open spec fn navigated(self, page: Page) -> Model {
        if page is Listing {
            Model { page, ..self.reset() }
        } else {
            Model { page, ..self }
        }
    }

    /// Sets the number of entries back to the default.
    pub fn reset_count(&mut self)
        ensures
            *final(self) == old(self).reset(),
    {
        self.max_count = MaxCount::default();
        self.growth = rest(self.growth);
    }

    /// Replaces the sort order, and sets the number of entries back to the
    /// default.
    pub fn set_sort(&mut self, sorting: Sorting)
        ensures
            *final(self) == old(self).sorted_by(sorting),
    {
        self.reset_count();
        self.sorting = sorting;
    }

    /// Replaces the filter, and sets the number of entries back to the
    /// default.
    pub fn set_filter(&mut self, query: String)
        ensures
            *final(self) == old(self).filtered_by(query),
    {
        self.reset_count();
        self.filtering = Some(query);
    }

    /// Shows another page. Going to the listing sets the number of entries
    /// back to the default.
    pub fn navigate(&mut self, page: Page)
        ensures
            *final(self) == old(self).navigated(page),
    {
        match &page {
            Page::Listing => {
                self.reset_count();
            },
            Page::Overview(_) => {},
        }
        self.page = page;
    }

    /// The sort keys of the records, in the order of the record set.
    pub open spec fn keys(&self) -> Seq<u64> {
        Seq::new(self.data@.len(), |r: int| sort_key(self.data@[r], self.sorting))
    }

    /// Whether the filter lets record `r` through.
    pub open spec fn shows(&self, r: int) -> bool {
        match self.filtering {
            Some(query) => self.data@[r].matches(query@),
            None => true,
        }
    }

    /// Those of `order` that the filter lets through, in order.
    pub open spec fn chosen(&self, order: Seq<usize>) -> Seq<usize>
        decreases order.len(),
    {
        if order.len() == 0 {
            Seq::empty()
        } else if self.shows(order.last() as int) {
            self.chosen(order.drop_last()).push(order.last())
        } else {
            self.chosen(order.drop_last())
        }
    }

    /// All records that the filter lets through, in the order of the
    /// listing.
    pub open spec fn filtered(&self) -> Seq<usize> {
        self.chosen(listing_order(self.keys()))
    }

    /// The visible records, as places in the record set: the record set
    /// sorted, then filtered, then cut to the number of entries to show.
    pub open spec fn visible(&self) -> Seq<usize> {
        if self.filtered().len() <= self.max_count.0 {
            self.filtered()
        } else {
            self.filtered().take(self.max_count.0 as int)
        }
    }

    /// The first record at or after place `i` whose identifier is `id`.
    pub open spec fn find_entry(&self, id: Seq<char>, i: int) -> Option<int>
        decreases self.data@.len() - i,
    {
        if i < 0 || i >= self.data@.len() {
            None
        } else if self.data@[i].spec_endpoint_query() == id {
            Some(i)
        } else {
            self.find_entry(id, i + 1)
        }
    }

    /// The entry to show in full: the first record that the page names.
    /// None on the listing, and none where the page names no record.
    pub open spec fn overview(&self) -> Option<int> {
        match self.page {
            Page::Overview(id) => self.find_entry(id@, 0),
            Page::Listing => None,
        }
    }

    /// Those of `order`, taken in two parts: what is chosen of the whole is
    /// what is chosen of each part.
    pub proof fn chosen_concat(&self, first: Seq<usize>, second: Seq<usize>)
        ensures
            self.chosen(first + second) == self.chosen(first) + self.chosen(second),
        decreases second.len(),
    {
        if second.len() == 0 {
            assert(first + second =~= first);
            assert(self.chosen(first) + self.chosen(second) =~= self.chosen(first));
        } else {
            self.chosen_concat(first, second.drop_last());
            assert((first + second).drop_last() =~= first + second.drop_last());
            assert((first + second).last() == second.last());
            if self.shows(second.last() as int) {
                assert(self.chosen(first) + self.chosen(second.drop_last()).push(second.last())
                    =~= (self.chosen(first) + self.chosen(second.drop_last())).push(
                    second.last(),
                ));
            }
        }
    }

    fn sort_keys(&self) -> (keys: Vec<u64>)
        ensures
            keys@ == self.keys(),
    {
        let mut keys: Vec<u64> = Vec::new();
        let mut r: usize = 0;
        while r < self.data.len()
            invariant
                r <= self.data.len(),
                keys@ == self.keys().take(r as int),
            decreases self.data.len() - r,
        {
            let item = &self.data[r];
            let key: u64 = match self.sorting {
                Sorting::Stars => item.0.stars as u64,
                Sorting::Commit => item.0.date_tt,
            };
            keys.push(key);
            r += 1;
            assert(keys@ =~= self.keys().take(r as int));
        }
        assert(self.keys().take(r as int) =~= self.keys());
        keys
    }

    fn lets_through(&self, r: usize) -> (shown: bool)
        requires
            r < self.data.len(),
        ensures
            shown == self.shows(r as int),
    {
        match &self.filtering {
            Some(query) => self.data[r].filtering(query.as_str()),
            None => true,
        }
    }

    /// The visible records, as places in the record set: sorted, filtered,
    /// and cut to the number of entries to show.
    pub fn visible_places(&self) -> (places: Vec<usize>)
        ensures
            places@ == self.visible(),
            forall|i: int| 0 <= i < places.len() ==> #[trigger] places@[i] < self.data.len(),
    {
        let keys = self.sort_keys();
        let order = sort_listing(&keys);
        let mut places: Vec<usize> = Vec::new();
        let mut i: usize = 0;
        while i < order.len() && places.len() < self.max_count.0
            invariant
                i <= order.len(),
                order@ == listing_order(self.keys()),
                crate::order::is_listing_order(self.keys(), order@),
                places@ == self.chosen(order@.take(i as int)),
                places.len() <= self.max_count.0,
                forall|j: int| 0 <= j < places.len() ==> #[trigger] places@[j] < self.data.len(),
            decreases order.len() - i,
        {
            proof {
                assert(order@.take(i + 1).drop_last() =~= order@.take(i as int));
                assert(order@.take(i + 1).last() == order@[i as int]);
            }
            let r = order[i];
            if self.lets_through(r) {
                places.push(r);
            }
            i += 1;
        }
        proof {
            let done = order@.take(i as int);
            let rest = order@.skip(i as int);
            assert(done + rest =~= order@);
            self.chosen_concat(done, rest);
            if i == order.len() {
                assert(done =~= order@);
            } else {
                assert((self.chosen(done) + self.chosen(rest)).take(self.max_count.0 as int)
                    =~= self.chosen(done));
            }
        }
        places
    }

    /// The visible entries of the listing, in order.
    pub fn listing(&self) -> (entries: Vec<&ListingItem>)
        ensures
            entries.len() == self.visible().len(),
            forall|i: int|
                0 <= i < entries.len() ==> *(#[trigger] entries@[i]) == self.data@[self.visible()[i] as int],
    {
        let places = self.visible_places();
        let mut entries: Vec<&ListingItem> = Vec::new();
        let mut i: usize = 0;
        while i < places.len()
            invariant
                i <= places.len(),
                places@ == self.visible(),
                forall|j: int| 0 <= j < places.len() ==> #[trigger] places@[j] < self.data.len(),
                entries.len() == i,
                forall|j: int|
                    0 <= j < i ==> *(#[trigger] entries@[j]) == self.data@[places@[j] as int],
            decreases places.len() - i,
        {
            entries.push(&self.data[places[i]]);
            i += 1;
        }
        entries
    }

    /// The place of the first record whose identifier is `id`.
    pub fn find(&self, id: &str) -> (place: Option<usize>)
        ensures
            match place {
                Some(r) => self.find_entry(id@, 0) == Some(r as int) && r < self.data.len(),
                None => self.find_entry(id@, 0) is None,
            },
    {
        let wanted = chars_of(id);
        let mut r: usize = 0;
        while r < self.data.len()
            invariant
                r <= self.data.len(),
                wanted@ == id@,
                self.find_entry(id@, r as int) == self.find_entry(id@, 0),
            decreases self.data.len() - r,
        {
            let name = self.data[r].endpoint_query();
            if same_text(&wanted, name.as_str()) {
                return Some(r);
            }
            r += 1;
        }
        None
    }

    /// What to show: on an overview page the entry that the page names,
    /// and the listing where it names none; on the listing page the listing.
    pub fn screen(&self) -> (screen: Screen<'_>)
        ensures
            match screen {
                Screen::Overview(entry) => self.overview() matches Some(r) && *entry
                    == self.data@[r],
                Screen::Listing(entries) => self.overview() is None && entries.len()
                    == self.visible().len() && forall|i: int|
                    0 <= i < entries.len() ==> *(#[trigger] entries@[i])
                        == self.data@[self.visible()[i] as int],
            },
    {
        match &self.page {
            Page::Overview(id) => {
                match self.find(id.as_str()) {
                    Some(r) => Screen::Overview(&self.data[r]),
                    None => Screen::Listing(self.listing()),
                }
            },
            Page::Listing => Screen::Listing(self.listing()),
        }
    }
}

/// Whether `places` are places of the record set, each standing before all
/// those that it precedes.
pub open spec fn is_chain(keys: Seq<u64>, places: Seq<usize>) -> bool {
    &&& forall|i: int| 0 <= i < places.len() ==> #[trigger] places[i] < keys.len()
    &&& is_descending(keys, places)
}

impl Model {
    /// What the filter chooses of a chain is a chain of records that the
    /// filter lets through, each taken from the chain, and no longer.
    pub proof fn chosen_is_chain(&self, order: Seq<usize>)
        requires
            is_chain(self.keys(), order),
        ensures
            is_chain(self.keys(), self.chosen(order)),
            self.chosen(order).len() <= order.len(),
            forall|i: int|
                0 <= i < self.chosen(order).len() ==> order.contains(
                    #[trigger] self.chosen(order)[i],
                ) && self.shows(self.chosen(order)[i] as int),
        decreases order.len(),
    {
        if order.len() > 0 {
            let front = order.drop_last();
            self.chosen_is_chain(front);
            let kept = self.chosen(front);
            assert forall|i: int| 0 <= i < kept.len() implies order.contains(#[trigger] kept[i])
                && precedes(self.keys(), kept[i] as int, order.last() as int) by {
                assert(front.contains(kept[i]));
                let k = choose|k: int| 0 <= k < front.len() && front[k] == kept[i];
                assert(order[k] == kept[i]);
            }
            if self.shows(order.last() as int) {
                let all = kept.push(order.last());
                assert(order[order.len() - 1] == order.last());
                assert forall|i: int| 0 <= i < all.len() implies order.contains(#[trigger] all[i])
                    && self.shows(all[i] as int) by {
                    if i < kept.len() {
                        assert(all[i] == kept[i]);
                    }
                }
            }
        }
    }

    /// What the filter chooses where it lets every record through is all
    /// there is to choose from.
    pub proof fn chosen_of_all(&self, order: Seq<usize>)
        requires
            forall|i: int| 0 <= i < order.len() ==> self.shows(#[trigger] order[i] as int),
        ensures
            self.chosen(order) == order,
        decreases order.len(),
    {
        if order.len() > 0 {
            self.chosen_of_all(order.drop_last());
            assert(order.drop_last().push(order.last()) =~= order);
        }
    }

    /// The visible records are never more than the records, and never more
    /// than the number of entries to show; each is a record that the filter
    /// lets through; none comes twice; and each stands before all those
    /// that it precedes, so that the order is the same at every call.
    pub proof fn visible_is_sound(&self)
        ensures
            self.visible().len() <= self.data@.len(),
            self.visible().len() <= self.max_count.0,
            is_chain(self.keys(), self.visible()),
            forall|i: int|
                0 <= i < self.visible().len() ==> self.shows(#[trigger] self.visible()[i] as int),
            forall|i: int, j: int|
                0 <= i < j < self.visible().len() ==> self.visible()[i] != self.visible()[j],
    {
        let keys = self.keys();
        let order = listing_order(keys);
        assert(keys.len() == self.data.len());
        order_of_first_is_ordered(keys, keys.len() as int);
        self.chosen_is_chain(order);
        let all = self.filtered();
        let seen = self.visible();
        assert forall|i: int| 0 <= i < seen.len() implies seen[i] == all[i] by {}
        assert forall|i: int, j: int| 0 <= i < j < seen.len() implies seen[i] != seen[j] by {
            assert(precedes(keys, all[i] as int, all[j] as int));
        }
    }

    /// Highest first: of two visible entries the one that stands first has
    /// at least the key of the other, the key being the stars under the
    /// order by stars and the time of the last commit under the order by
    /// commit.
    pub proof fn visible_never_rises(&self, i: int, j: int)
        requires
            0 <= i <= j < self.visible().len(),
        ensures
            self.visible()[i] < self.data@.len(),
            self.visible()[j] < self.data@.len(),
            sort_key(self.data@[self.visible()[i] as int], self.sorting) >= sort_key(
                self.data@[self.visible()[j] as int],
                self.sorting,
            ),
    {
        self.visible_is_sound();
        let keys = self.keys();
        let seen = self.visible();
        assert(seen[i] < keys.len() && seen[j] < keys.len());
        if i < j {
            assert(precedes(keys, seen[i] as int, seen[j] as int));
        }
    }

    /// The visible records are a function of the record set, the sort
    /// order, the filter and the number of entries to show, and of nothing
    /// else: neither the page nor the state of growth has a say.
    pub proof fn visible_depends_on_listing_alone(&self, other: Model)
        requires
            self.data == other.data,
            self.sorting == other.sorting,
            self.filtering == other.filtering,
            self.max_count == other.max_count,
        ensures
            self.visible() == other.visible(),
    {
        assert(self.keys() =~= other.keys());
        self.chosen_agrees(other, listing_order(self.keys()));
    }

    /// Two states of the same record set and filter choose the same.
    proof fn chosen_agrees(&self, other: Model, order: Seq<usize>)
        requires
            self.data == other.data,
            self.filtering == other.filtering,
        ensures
            self.chosen(order) == other.chosen(order),
        decreases order.len(),
    {
        if order.len() > 0 {
            self.chosen_agrees(other, order.drop_last());
        }
    }

    /// Empty filter: where the query has no words, or there is none, and
    /// the number of entries to show is at least that of the records, the
    /// visible records are all records, each once, in the order of the
    /// listing.
    pub proof fn empty_filter_shows_all(&self)
        requires
            self.filtering matches Some(query) ==> words(query@).len() == 0,
            self.max_count.0 >= self.data@.len(),
        ensures
            self.visible() == listing_order(self.keys()),
            is_listing_order(self.keys(), self.visible()),
    {
        let keys = self.keys();
        order_of_first_is_ordered(keys, keys.len() as int);
        self.chosen_of_all(listing_order(keys));
    }
}

} // verus!
