use mindustry_mods::color::Color;
use mindustry_mods::date::{Lapse, Timestamp};
use mindustry_mods::card::{tiny_list, Card, Icon, VersionLabel};
use mindustry_mods::listing::{any_holds, matches_words, ListingItem};
use mindustry_mods::order::sort_listing;
use mindustry_mods::record::{Mod, MOD_VERSION};
use mindustry_mods::render::Segment;
use mindustry_mods::text::{
    chars_of, find_char, is_substring, join, replace_char, same_text, slice_of, split_whitespace,
    string_of,
};

fn s(text: &str) -> String {
    text.to_string()
}

fn chars(text: &str) -> Vec<char> {
    text.chars().collect()
}

fn record(repo: &str, author: &str, desc: &str) -> Mod {
    Mod::new(
        s("Name"),
        s("[red]Name"),
        s("https://github.com/owner/repo"),
        s(repo),
        s(desc),
        None,
        None,
        0,
        s(author),
        None,
        s("2020-01-01T00:00:00Z"),
        1_577_836_800_000,
        s("Read me."),
        None,
        vec![],
        vec![],
        None,
    )
}

fn item(repo: &str, author: &str, desc: &str) -> ListingItem {
    ListingItem(record(repo, author, desc))
}

const WHITE: Color = Color { r: 255, g: 255, b: 255, a: 255 };

#[test]
fn record_from_its_parts() {
    let m = Mod::new(
        s("n"),
        s("nm"),
        s("l"),
        s("o/r"),
        s("d"),
        Some(s("dm")),
        Some(s("icon.png")),
        7,
        s("a"),
        Some(s("am")),
        s("date"),
        42,
        s("readme"),
        Some(s("1.0")),
        vec![s("sprites")],
        vec![s("items")],
        Some(s("dn")),
    );
    assert_eq!(m.name, "n");
    assert_eq!(m.name_markup, "nm");
    assert_eq!(m.link, "l");
    assert_eq!(m.repo, "o/r");
    assert_eq!(m.desc, "d");
    assert_eq!(m.desc_markup, Some(s("dm")));
    assert_eq!(m.icon, Some(s("icon.png")));
    assert_eq!(m.stars, 7);
    assert_eq!(m.author, "a");
    assert_eq!(m.author_markup, Some(s("am")));
    assert_eq!(m.date, "date");
    assert_eq!(m.date_tt, 42);
    assert_eq!(m.date_tt(), 42);
    assert_eq!(m.readme, "readme");
    assert_eq!(m.version, Some(s("1.0")));
    assert_eq!(m.assets, vec![s("sprites")]);
    assert_eq!(m.contents, vec![s("items")]);
    assert_eq!(m.display_name, Some(s("dn")));
    assert_eq!(m.wiki, None);
    assert_eq!(MOD_VERSION, "3.2");
}

#[test]
fn query_of_two_words_needs_both() {
    let both = item("o/r", "Redwood", "Adds Iron plates");
    let only_iron = item("o/r", "Smith", "Adds iron plates");
    assert!(both.filtering("iron red"));
    assert!(!only_iron.filtering("iron red"));
    assert!(only_iron.filtering("iron"));
}

#[test]
fn empty_query_matches_everything() {
    let it = item("o/r", "a", "d");
    assert!(it.filtering(""));
    assert!(it.filtering("   "));
    assert!(it.filtering("\t\n"));
}

#[test]
fn query_ignores_case_on_both_sides() {
    let it = item("Owner/Repo", "Redwood", "Adds Iron plates");
    assert!(it.filtering("IRON"));
    assert!(it.filtering("redWOOD"));
    assert!(it.filtering("owner/repo"));
    assert!(!it.filtering("gold"));
}

#[test]
fn query_looks_in_every_field() {
    let mut m = record("owner/repo", "author", "desc");
    m.readme = s("long README text");
    m.contents = vec![s("items"), s("blocks")];
    m.assets = vec![s("sprites"), s("sounds")];
    m.name = s("onlyname");
    let it = ListingItem(m);
    assert!(it.filtering("author"));
    assert!(it.filtering("desc"));
    assert!(it.filtering("owner"));
    assert!(it.filtering("readme"));
    assert!(it.filtering("blocks"));
    assert!(it.filtering("sounds"));
    assert!(it.filtering("author desc owner readme blocks sounds"));
    assert!(!it.filtering("onlyname"));
    assert!(!it.filtering("author missing"));
    // Tags are joined by a space, and a word holds none.
    assert!(!it.filtering("itemsblocks"));
}

#[test]
fn more_words_never_find_more() {
    let items = vec![
        item("a/b", "Redwood", "Adds Iron plates"),
        item("c/d", "Smith", "iron and gold"),
        item("e/f", "Jones", "nothing"),
    ];
    let loose = "iron";
    let strict = "gold iron";
    for it in &items {
        if it.filtering(strict) {
            assert!(it.filtering(loose));
        }
    }
    assert_eq!(items.iter().filter(|i| i.filtering(loose)).count(), 2);
    assert_eq!(items.iter().filter(|i| i.filtering(strict)).count(), 1);
}

#[test]
fn identifier_and_links() {
    let it = item("owner/repo", "a", "d");
    assert_eq!(it.endpoint_query(), "owner--repo");
    assert_eq!(it.endpoint_href(), "m/owner--repo.html");
    assert_eq!(it.archive_link(), "https://github.com/owner/repo/archive/master.zip");
    assert_eq!(it.0.archive_link(), "https://github.com/owner/repo/archive/master.zip");
    assert_eq!(it.repo_link(), "https://github.com/owner/repo");
    assert_eq!(it.wiki_link(), None);
    let mut m = record("a/b/c", "a", "d");
    m.wiki = Some(s("https://wiki"));
    let it = ListingItem(m);
    assert_eq!(it.endpoint_query(), "a--b--c");
    assert_eq!(it.wiki_link(), Some("https://wiki"));
}

#[test]
fn icon_of_the_owner_where_the_record_has_none() {
    let it = item("owner/repo", "a", "d");
    assert_eq!(
        it.icon(),
        Icon { src: s("https://github.com/owner.png?size=64"), placeholder_on_error: false }
    );
    let mut m = record("owner/repo", "a", "d");
    m.icon = Some(s(""));
    assert_eq!(
        ListingItem(m).icon(),
        Icon { src: s("https://github.com/owner.png?size=64"), placeholder_on_error: false }
    );
    assert_eq!(
        item("noslash", "a", "d").icon().src,
        "https://github.com/noslash.png?size=64"
    );
}

#[test]
fn icon_of_the_record() {
    let mut m = record("owner/repo", "a", "d");
    m.icon = Some(s("img/icon.png"));
    assert_eq!(
        ListingItem(m).icon(),
        Icon {
            src: s("https://raw.githubusercontent.com/owner/repo/master/img/icon.png"),
            placeholder_on_error: true
        }
    );
}

#[test]
fn rendered_texts_of_an_entry() {
    let mut m = record("owner/repo", "a", "d");
    m.desc_markup = Some(s("[red]hot"));
    m.author_markup = Some(s("by [[me"));
    m.version = Some(s("1.2"));
    let red = Color { r: 255, g: 0, b: 0, a: 255 };
    let it = ListingItem(m);
    assert_eq!(it.description(), vec![Segment { text: s("hot"), color: red }]);
    assert_eq!(
        it.by_author(),
        vec![
            Segment { text: s("by "), color: WHITE },
            Segment { text: s("["), color: WHITE },
            Segment { text: s("me"), color: WHITE }
        ]
    );
    assert_eq!(it.title_link(), vec![Segment { text: s("Name"), color: red }]);
    let v = it.v_number();
    assert_eq!(v.prefix, "v");
    assert_eq!(v.number, vec![Segment { text: s("1.2"), color: WHITE }]);
}

#[test]
fn rendered_texts_of_a_bare_entry() {
    let it = item("owner/repo", "a", "d");
    assert_eq!(it.description(), vec![]);
    assert_eq!(it.by_author(), vec![Segment { text: s("null"), color: WHITE }]);
    let v = it.v_number();
    assert_eq!(v.prefix, "");
    assert_eq!(v.number, vec![]);
}

#[test]
fn star_rows() {
    let mut m = record("o/r", "a", "d");
    assert_eq!(ListingItem(m.clone()).stars_el(), "\u{2606}");
    m.stars = 1;
    assert_eq!(ListingItem(m.clone()).stars_el(), "\u{2605}");
    m.stars = 4;
    assert_eq!(ListingItem(m).stars_el(), "\u{2605}\u{2605}\u{2605}\u{2605}");
}

#[test]
fn age_of_the_last_commit() {
    let now = Timestamp::new(Lapse::new(1_577_836_800 + 5 * 86_400, 0).unwrap());
    assert_eq!(item("o/r", "a", "d").last_commit(now), "5days ago");
    let mut m = record("o/r", "a", "d");
    m.date = s("soon");
    assert_eq!(ListingItem(m.clone()).last_commit(now), "formatting error");
    m.date = s("2030-01-01T00:00:00Z");
    assert_eq!(ListingItem(m).last_commit(now), "computation error");
}

#[test]
fn tiny_list_leaves_content_out() {
    assert_eq!(
        tiny_list(&vec![s("content"), s("sprites"), s("content"), s("scripts")]),
        vec![s("sprites"), s("scripts")]
    );
    assert_eq!(tiny_list(&vec![s("content")]), Vec::<String>::new());
    assert_eq!(tiny_list(&vec![]), Vec::<String>::new());
    assert_eq!(tiny_list(&vec![s("contents"), s("Content")]), vec![s("contents"), s("Content")]);
}

#[test]
fn stars_sorted_highest_first() {
    let stars = vec![3, 10, 1];
    let order = sort_listing(&stars);
    assert_eq!(order, vec![1, 0, 2]);
    let sorted: Vec<u64> = order.iter().map(|&r| stars[r]).collect();
    assert_eq!(sorted, vec![10, 3, 1]);
}

#[test]
fn equal_keys_come_latest_first() {
    assert_eq!(sort_listing(&vec![5, 5, 5]), vec![2, 1, 0]);
    assert_eq!(sort_listing(&vec![1, 2, 1, 2]), vec![3, 1, 2, 0]);
    assert_eq!(sort_listing(&vec![]), Vec::<usize>::new());
    assert_eq!(sort_listing(&vec![9]), vec![0]);
    assert_eq!(sort_listing(&vec![0, u64::MAX, 0]), vec![1, 2, 0]);
    assert_eq!(sort_listing(&vec![6_000_000_000, 5_000_000_000]), vec![0, 1]);
    assert_eq!(sort_listing(&vec![5_000_000_000, 6_000_000_000]), vec![1, 0]);
    assert_eq!(sort_listing(&vec![u64::MAX - 1, u64::MAX]), vec![1, 0]);
}

#[test]
fn order_is_that_of_a_stable_sort_reversed() {
    let keys: Vec<u64> = vec![4, 1, 4, 2, 2, 9, 1, 4, 0, 9];
    let mut expected: Vec<usize> = (0..keys.len()).collect();
    expected.sort_by_key(|&r| keys[r]);
    expected.reverse();
    assert_eq!(sort_listing(&keys), expected);
}

#[test]
fn words_of_a_text() {
    assert_eq!(split_whitespace("iron red"), vec![s("iron"), s("red")]);
    assert_eq!(split_whitespace("  a \t b\n\nc  "), vec![s("a"), s("b"), s("c")]);
    assert_eq!(split_whitespace(""), Vec::<String>::new());
    assert_eq!(split_whitespace(" \u{a0}\u{3000} "), Vec::<String>::new());
    assert_eq!(split_whitespace("a\u{2003}b"), vec![s("a"), s("b")]);
    let text = " Mixed\u{2028}Up   words\rhere ";
    let expected: Vec<String> = text.split_whitespace().map(|w| w.to_string()).collect();
    assert_eq!(split_whitespace(text), expected);
}

#[test]
fn text_helpers() {
    assert_eq!(chars_of("a\u{e9}b"), vec!['a', '\u{e9}', 'b']);
    assert_eq!(string_of(&chars("hello"), 1, 3), "el");
    assert_eq!(string_of(&chars("hello"), 2, 2), "");
    assert_eq!(slice_of(&chars("hello"), 0, 5), chars("hello"));
    assert!(same_text(&chars("abc"), "abc"));
    assert!(!same_text(&chars("abc"), "abd"));
    assert!(!same_text(&chars("abc"), "ab"));
    assert!(!same_text(&chars("ab"), "abc"));
    assert!(same_text(&chars(""), ""));
    assert_eq!(find_char(&chars("a=b=c"), '=', 0), 1);
    assert_eq!(find_char(&chars("a=b=c"), '=', 2), 3);
    assert_eq!(find_char(&chars("a=b=c"), '=', 4), 5);
    assert_eq!(find_char(&chars("abc"), '=', 0), 3);
    assert_eq!(join(&vec![s("a"), s("b"), s("c")], " "), "a b c");
    assert_eq!(join(&vec![s("a")], ", "), "a");
    assert_eq!(join(&vec![], " "), "");
    assert_eq!(join(&vec![s(""), s("")], "-"), "-");
    assert_eq!(replace_char("a/b/c", '/', "--"), "a--b--c");
    assert_eq!(replace_char("//", '/', ""), "");
    assert_eq!(replace_char("none", '/', "--"), "none");
}

#[test]
fn substrings() {
    assert!(is_substring(&chars("hello world"), &chars("lo w")));
    assert!(is_substring(&chars("hello"), &chars("hello")));
    assert!(is_substring(&chars("hello"), &chars("")));
    assert!(is_substring(&chars(""), &chars("")));
    assert!(is_substring(&chars("aab"), &chars("ab")));
    assert!(!is_substring(&chars("hello"), &chars("hellos")));
    assert!(!is_substring(&chars("hello"), &chars("world")));
    assert!(!is_substring(&chars(""), &chars("a")));
    assert!(is_substring(&chars("abc"), &chars("c")));
}

#[test]
fn card_of_an_entry() {
    let mut m = record("owner/repo", "Author", "desc");
    m.desc_markup = Some(s("[blue]deep"));
    m.author_markup = Some(s("Author"));
    m.version = Some(s("2"));
    m.stars = 2;
    m.wiki = Some(s("https://wiki"));
    m.assets = vec![s("content"), s("sprites")];
    m.contents = vec![s("items"), s("content")];
    m.readme = s("# Title");
    let it = ListingItem(m);
    let now = Timestamp::new(Lapse::new(1_577_836_800 + 7_200, 0).unwrap());
    let blue = Color { r: 0, g: 0, b: 255, a: 255 };
    let red = Color { r: 255, g: 0, b: 0, a: 255 };
    let expected = Card {
        id: s("owner--repo"),
        icon: Icon { src: s("https://github.com/owner.png?size=64"), placeholder_on_error: false },
        title: vec![Segment { text: s("Name"), color: red }],
        author: vec![Segment { text: s("Author"), color: WHITE }],
        version: VersionLabel {
            prefix: s("v"),
            number: vec![Segment { text: s("2"), color: WHITE }],
        },
        last_commit: s("2h ago"),
        description: vec![Segment { text: s("deep"), color: blue }],
        repo_link: s("https://github.com/owner/repo"),
        archive_link: s("https://github.com/owner/repo/archive/master.zip"),
        wiki_link: Some(s("https://wiki")),
        assets: vec![s("sprites")],
        contents: vec![s("items")],
        star_count: 2,
        stars: s("\u{2605}\u{2605}"),
    };
    assert_eq!(it.listing_item(now), expected);
    let page = it.overview_item(now);
    assert_eq!(page.card, expected);
    assert_eq!(page.readme, "# Title");
}

#[test]
fn each_wanted_word_must_stand_in_a_field() {
    let fields = vec![chars("adds iron plates"), chars("redwood"), chars("")];
    let words = |ws: &[&str]| ws.iter().map(|w| chars(w)).collect::<Vec<Vec<char>>>();
    assert!(matches_words(&fields, &words(&["iron", "red"])));
    assert!(matches_words(&fields, &words(&["red", "iron", "plates"])));
    assert!(!matches_words(&fields, &words(&["iron", "gold"])));
    assert!(!matches_words(&fields, &words(&["gold"])));
    assert!(matches_words(&fields, &words(&[])));
    assert!(matches_words(&fields, &words(&[""])));
    assert!(!matches_words(&vec![], &words(&["iron"])));
    assert!(matches_words(&vec![], &words(&[])));
    // A word is looked for in each field by itself, not across two.
    assert!(!matches_words(&fields, &words(&["platesredwood"])));
    // The fields are taken as they come: no case is changed here.
    assert!(!matches_words(&fields, &words(&["Iron"])));
}

#[test]
fn one_word_in_one_of_the_fields() {
    let fields = vec![chars("alpha"), chars("beta gamma")];
    assert!(any_holds(&fields, &chars("alp")));
    assert!(any_holds(&fields, &chars("a g")));
    assert!(any_holds(&fields, &chars("")));
    assert!(!any_holds(&fields, &chars("delta")));
    assert!(!any_holds(&fields, &chars("alphabeta")));
    assert!(!any_holds(&vec![], &chars("")));
}

#[test]
fn white_space_is_what_unicode_says() {
    for c in ['\t', '\n', '\u{b}', '\u{c}', '\r', ' ', '\u{85}', '\u{a0}', '\u{1680}', '\u{2000}',
        '\u{2005}', '\u{200a}', '\u{2028}', '\u{2029}', '\u{202f}', '\u{205f}', '\u{3000}']
    {
        let text = format!("a{}b", c);
        assert_eq!(split_whitespace(&text), vec![s("a"), s("b")]);
    }
    for c in ['\u{8}', '\u{e}', '\u{1f}', '!', '\u{84}', '\u{86}', '\u{9f}', '\u{a1}', '\u{180e}',
        '\u{1fff}', '\u{200b}', '\u{2027}', '\u{202a}', '\u{2060}', '\u{2fff}', '\u{3001}', '\u{feff}']
    {
        let text = format!("a{}b", c);
        assert_eq!(split_whitespace(&text), vec![text.clone()]);
    }
}
