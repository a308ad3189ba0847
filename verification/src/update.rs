//! The events of the directory: what each does to the state, and what
//! else it asks for.

use crate::growth::{
    double, doubled, doubled_times, doubling_is_power, is_near_bottom, near_bottom, pow2, Growth,
};
use crate::listing::ListingItem;
use crate::model::{MaxCount, Model, Page, Sorting};
use crate::order::is_listing_order;
use vstd::prelude::*;
use vstd::string::StringExecFns;

verus! {

/// An event of the directory.
#[derive(Debug, PartialEq, Eq)]
pub enum Msg {
    /// The view was scrolled.
    Scroll {
        /// How far down the view stands.
        scroll: i64,
        /// The height of the window.
        height: i64,
        /// The height of the whole content.
        offset: i64,
    },
    /// The data set arrived, or the reason why it did not.
    FetchData(Result<Vec<ListingItem>, String>),
    /// Sort the listing anew.
    SetSort(Sorting),
    /// Filter the listing by the words of a text.
    FilterWords(String),
    /// Go to a page, and say so in the address.
    Route(Page),
    /// Show a page that the address already names.
    ChangePage(Page),
    /// Scrolling cannot be followed.
    ScrollError,
}

/// What becomes of the address.
#[derive(Clone, Debug, PartialEq, Eq)]
pub enum UrlChange {
    /// It stays as it is.
    Stay,
    /// It becomes the root, without a query.
    Root,
    /// It becomes the root with this query.
    Search(String),
}

/// What is to be done after an event, beside the change of state.
#[derive(Debug, PartialEq, Eq)]
pub struct Effects {
    /// The new address.
    pub url: UrlChange,
    /// Whether to scroll to the top.
    pub scroll_to_top: bool,
    /// Whether to leave the view as it is drawn.
    pub skip_render: bool,
    /// An event to handle next.
    pub send: Option<Msg>,
    /// Lines for the diagnostic log.
    pub log: Vec<String>,
}

impl Model {
    /// The state after an event.
    ///
    /// - `Route` to an overview leaves the state alone; `Route` to the
    ///   listing sets the number of entries back to the default.
    /// - `ChangePage` shows the page.
    /// - `Scroll` near the bottom doubles the number of entries, unless
    ///   scrolling cannot be followed.
    /// - `FetchData` with records replaces the record set; with a failure
    ///   it leaves the records as they were: none, before the first answer.
    /// - `SetSort` and `FilterWords` set the sort order or the filter, and
    ///   the number of entries back to the default.
    /// - `ScrollError` sets the number of entries to that of all records,
    ///   and growth to `Errored` for good.
    pub open spec fn after(self, msg: Msg) -> Model {
        match msg {
            Msg::Route(Page::Overview(_)) => self,
            Msg::Route(Page::Listing) => self.reset(),
            Msg::ChangePage(page) => Model { page, ..self },
            Msg::Scroll { scroll, height, offset } => if near_bottom(scroll, height, offset)
                && self.growth != Growth::Errored {
                Model {
                    max_count: MaxCount(doubled(self.max_count.0)),
                    growth: Growth::Growing,
                    ..self
                }
            } else {
                self
            },
            Msg::FetchData(Ok(data)) => Model { data, ..self },
            Msg::FetchData(Err(_)) => self,
            Msg::SetSort(sorting) => self.sorted_by(sorting),
            Msg::FilterWords(words) => self.filtered_by(words),
            Msg::ScrollError => Model {
                max_count: MaxCount(self.data@.len() as usize),
                growth: Growth::Errored,
                ..self
            },
        }
    }

    /// The state after `n` scroll signals near the bottom, one after the
    /// other.
    pub open spec fn after_signals(self, n: nat, scroll: i64, height: i64, offset: i64) -> Model
        decreases n,
    {
        if n == 0 {
            self
        } else {
            self.after_signals((n - 1) as nat, scroll, height, offset).after(
                Msg::Scroll { scroll, height, offset },
            )
        }
    }
}

/// Whether `effects` is what an event asks for beside the change of state.
///
/// - `Route` to an overview: the address gets the query `mod=` and the
///   entry's identifier, the view scrolls to the top, and the page change
///   follows as an event of its own.
/// - `Route` to the listing: the address becomes the root, and the page
///   change follows.
/// - A failed `FetchData` and `ScrollError` leave lines in the log.
/// - Every other event asks for nothing but a fresh view.
pub open spec fn is_effects_of(effects: Effects, msg: Msg) -> bool {
    match msg {
        Msg::Route(Page::Overview(name)) => {
            &&& effects.url matches UrlChange::Search(query) && query@ == "mod="@ + name@
            &&& effects.scroll_to_top
            &&& effects.skip_render
            &&& effects.send == Some(Msg::ChangePage(Page::Overview(name)))
            &&& effects.log@.len() == 0
        },
        Msg::Route(Page::Listing) => {
            &&& effects.url is Root
            &&& !effects.scroll_to_top
            &&& effects.skip_render
            &&& effects.send == Some(Msg::ChangePage(Page::Listing))
            &&& effects.log@.len() == 0
        },
        Msg::FetchData(Err(reason)) => {
            &&& is_quiet(effects)
            &&& effects.log@.len() == 2
            &&& effects.log@[0]@ == "modmeta loading failed"@
            &&& effects.log@[1]@ == reason@
        },
        Msg::ScrollError => {
            &&& is_quiet(effects)
            &&& effects.log@.len() == 1
            &&& effects.log@[0]@ == "ERROR: scroll error"@
        },
        _ => is_quiet(effects) && effects.log@.len() == 0,
    }
}

/// Effects that leave the address and the scroll position alone, send
/// nothing and let the view be drawn afresh.
pub open spec fn is_quiet(effects: Effects) -> bool {
    &&& effects.url is Stay
    &&& !effects.scroll_to_top
    &&& !effects.skip_render
    &&& effects.send is None
}

fn quiet() -> (effects: Effects)
    ensures
        is_quiet(effects),
        effects.log@.len() == 0,
{
    Effects {
        url: UrlChange::Stay,
        scroll_to_top: false,
        skip_render: false,
        send: None,
        log: Vec::new(),
    }
}

/// Handles one event: changes the state, and returns what else is to be
/// done.
pub fn update(msg: Msg, model: &mut Model) -> (effects: Effects)
    ensures
        *final(model) == old(model).after(msg),
        is_effects_of(effects, msg),
{
    match msg {
        Msg::Route(Page::Overview(name)) => {
            let mut query = String::from_str("mod=");
            query.append(name.as_str());
            Effects {
                url: UrlChange::Search(query),
                scroll_to_top: true,
                skip_render: true,
                send: Some(Msg::ChangePage(Page::Overview(name))),
                log: Vec::new(),
            }
        },
        Msg::Route(Page::Listing) => {
            model.reset_count();
            Effects {
                url: UrlChange::Root,
                scroll_to_top: false,
                skip_render: true,
                send: Some(Msg::ChangePage(Page::Listing)),
                log: Vec::new(),
            }
        },
        Msg::ChangePage(page) => {
            model.page = page;
            quiet()
        },
        Msg::Scroll { scroll, height, offset } => {
            if is_near_bottom(scroll, height, offset) && model.growth != Growth::Errored {
                model.max_count = MaxCount(double(model.max_count.0));
                model.growth = Growth::Growing;
            }
            quiet()
        },
        Msg::FetchData(Ok(data)) => {
            model.data = data;
            quiet()
        },
        Msg::FetchData(Err(reason)) => {
            let mut effects = quiet();
            effects.log.push("modmeta loading failed".to_string());
            effects.log.push(reason);
            effects
        },
        Msg::SetSort(sorting) => {
            model.set_sort(sorting);
            quiet()
        },
        Msg::FilterWords(words) => {
            model.set_filter(words);
            quiet()
        },
        Msg::ScrollError => {
            model.max_count = MaxCount(model.data.len());
            model.growth = Growth::Errored;
            let mut effects = quiet();
            effects.log.push("ERROR: scroll error".to_string());
            effects
        },
    }
}

impl Model {
    /// Empty filter, as an event: after the filter is set to the empty
    /// text, a record set that the number of entries has room for is
    /// visible as a whole.
    pub proof fn empty_filter_event_shows_all(self, query: String)
        requires
            query@.len() == 0,
            self.after(Msg::FilterWords(query)).max_count.0 >= self.data@.len(),
        ensures
            is_listing_order(
                self.after(Msg::FilterWords(query)).keys(),
                self.after(Msg::FilterWords(query)).visible(),
            ),
    {
        self.after(Msg::FilterWords(query)).empty_filter_shows_all();
    }

    /// Cap growth: `n` scroll signals near the bottom, one after the other,
    /// double the number of entries `n` times. From the default of 8 this
    /// gives 8 * 2^n; a number that the machine cannot hold is replaced by
    /// the highest that it can. Nothing else changes, but that growth has
    /// begun.
    pub proof fn cap_growth(self, n: nat, scroll: i64, height: i64, offset: i64)
        requires
            near_bottom(scroll, height, offset),
            self.growth != Growth::Errored,
        ensures
            self.after_signals(n, scroll, height, offset) == (Model {
                max_count: MaxCount(doubled_times(self.max_count.0, n)),
                growth: if n == 0 {
                    self.growth
                } else {
                    Growth::Growing
                },
                ..self
            }),
            self.max_count.0 * pow2(n) <= usize::MAX ==> self.after_signals(
                n,
                scroll,
                height,
                offset,
            ).max_count.0 == self.max_count.0 * pow2(n),
            self.max_count.0 * pow2(n) > usize::MAX ==> self.after_signals(
                n,
                scroll,
                height,
                offset,
            ).max_count.0 == usize::MAX,
        decreases n,
    {
        doubling_is_power(self.max_count.0, n);
        if n > 0 {
            self.cap_growth((n - 1) as nat, scroll, height, offset);
        }
    }

    /// Navigation: going to a page and then showing it, as two events, is
    /// one navigation to that page.
    pub proof fn route_then_change_page_navigates(self, page: Page)
        ensures
            self.after(Msg::Route(page)).after(Msg::ChangePage(page)) == self.navigated(page),
    {
    }

    /// Nothing leaves `Errored`: whatever the event, growth stays there,
    /// and a scroll signal changes nothing at all.
    pub proof fn errored_is_final(self, msg: Msg)
        requires
            self.growth == Growth::Errored,
        ensures
            self.after(msg).growth == Growth::Errored,
            msg is Scroll ==> self.after(msg) == self,
    {
    }
}

} // verus!
