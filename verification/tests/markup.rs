use mindustry_mods::color::{Color, Name};
use mindustry_mods::markup::{hex_digit, read_directive, Markup};
use mindustry_mods::render::{current, from_str, render, Segment};

fn seg(text: &str, color: Color) -> Segment {
    Segment { text: text.to_string(), color }
}

fn text(t: &str) -> Markup {
    Markup::Text(t.to_string())
}

fn payloads(tokens: &[Markup]) -> String {
    let mut out = String::new();
    for t in tokens {
        match t {
            Markup::Text(s) => out.push_str(s),
            Markup::Escaped => out.push('['),
            Markup::NewLine => out.push('\n'),
            _ => {}
        }
    }
    out
}

const WHITE: Color = Color { r: 255, g: 255, b: 255, a: 255 };
const RED: Color = Color { r: 255, g: 0, b: 0, a: 255 };
const BLUE: Color = Color { r: 0, g: 0, b: 255, a: 255 };

#[test]
fn named_colour_then_pop() {
    assert_eq!(
        from_str("[red]Alert[] normal"),
        vec![seg("Alert", RED), seg(" normal", WHITE)]
    );
}

#[test]
fn escaped_bracket_is_one_bracket() {
    assert_eq!(
        from_str("a [[ b"),
        vec![seg("a ", WHITE), seg("[", WHITE), seg(" b", WHITE)]
    );
}

#[test]
fn tokens_of_named_colour_then_pop() {
    assert_eq!(
        Markup::parse("[red]Alert[] normal"),
        vec![Markup::Named(Name::Red), text("Alert"), Markup::Popped, text(" normal")]
    );
}

#[test]
fn empty_input_has_no_tokens() {
    assert_eq!(Markup::parse(""), vec![]);
    assert_eq!(from_str(""), vec![]);
}

#[test]
fn hex_colour_without_alpha() {
    assert_eq!(
        Markup::parse("[#ff8000]x"),
        vec![Markup::HexColor { r: 255, g: 128, b: 0, a: None }, text("x")]
    );
    assert_eq!(from_str("[#ff8000]x"), vec![seg("x", Color { r: 255, g: 128, b: 0, a: 255 })]);
}

#[test]
fn hex_colour_with_alpha() {
    assert_eq!(
        Markup::parse("[#0A1b2C7f]"),
        vec![Markup::HexColor { r: 10, g: 27, b: 44, a: Some(127) }]
    );
    assert_eq!(
        from_str("[#0A1b2C7f]y"),
        vec![seg("y", Color { r: 10, g: 27, b: 44, a: 127 })]
    );
}

#[test]
fn malformed_hex_is_text() {
    assert_eq!(Markup::parse("[#12]ab"), vec![text("[#12]ab")]);
    assert_eq!(Markup::parse("[#gg0000]"), vec![text("[#gg0000]")]);
    assert_eq!(Markup::parse("[#1234567]"), vec![text("[#1234567]")]);
    assert_eq!(Markup::parse("[#]"), vec![text("[#]")]);
}

#[test]
fn unknown_name_is_text() {
    assert_eq!(Markup::parse("[unknown]x"), vec![text("[unknown]x")]);
    assert_eq!(Markup::parse("[Red]x"), vec![text("[Red]x")]);
    assert_eq!(Markup::parse("[ red]x"), vec![text("[ red]x")]);
}

#[test]
fn unterminated_bracket_is_text() {
    assert_eq!(Markup::parse("[red"), vec![text("[red")]);
    assert_eq!(Markup::parse("["), vec![text("[")]);
    assert_eq!(Markup::parse("abc["), vec![text("abc"), text("[")]);
    assert_eq!(Markup::parse("[red\n]"), vec![text("[red"), Markup::NewLine, text("]")]);
}

#[test]
fn degraded_text_ends_at_the_next_bracket() {
    assert_eq!(
        Markup::parse("[#12]ab[red]c"),
        vec![text("[#12]ab"), Markup::Named(Name::Red), text("c")]
    );
    assert_eq!(
        Markup::parse("[bad[red]c"),
        vec![text("[bad"), Markup::Named(Name::Red), text("c")]
    );
}

#[test]
fn line_break_is_its_own_token() {
    assert_eq!(
        Markup::parse("a\nb\n"),
        vec![text("a"), Markup::NewLine, text("b"), Markup::NewLine]
    );
    assert_eq!(
        from_str("[red]a\nb"),
        vec![seg("a", RED), seg("\n", RED), seg("b", RED)]
    );
}

#[test]
fn closing_bracket_alone_is_text() {
    assert_eq!(Markup::parse("a]b"), vec![text("a]b")]);
    assert_eq!(Markup::parse("]"), vec![text("]")]);
}

#[test]
fn escape_wins_over_directive() {
    assert_eq!(Markup::parse("[[red]"), vec![Markup::Escaped, text("red]")]);
    assert_eq!(
        Markup::parse("[[[red]x"),
        vec![Markup::Escaped, Markup::Named(Name::Red), text("x")]
    );
    assert_eq!(Markup::parse("[[[["), vec![Markup::Escaped, Markup::Escaped]);
}

#[test]
fn pop_alone() {
    assert_eq!(Markup::parse("[]"), vec![Markup::Popped]);
    assert_eq!(from_str("[]"), vec![]);
}

#[test]
fn excess_pops_change_nothing() {
    assert_eq!(from_str("[]a[][]b"), vec![seg("a", WHITE), seg("b", WHITE)]);
    assert_eq!(from_str("[]a[][]b"), from_str("ab".get(0..1).unwrap())
        .into_iter()
        .chain(from_str("b"))
        .collect::<Vec<_>>());
    assert_eq!(
        from_str("[red]a[][][blue]b"),
        vec![seg("a", RED), seg("b", BLUE)]
    );
}

#[test]
fn nested_colours_come_back() {
    assert_eq!(
        from_str("[red]a[blue]b[]c[]d"),
        vec![seg("a", RED), seg("b", BLUE), seg("c", RED), seg("d", WHITE)]
    );
}

#[test]
fn stack_is_not_kept_between_calls() {
    let first = from_str("[red]a");
    let second = from_str("b");
    assert_eq!(first, vec![seg("a", RED)]);
    assert_eq!(second, vec![seg("b", WHITE)]);
    assert_eq!(from_str("[red]a"), first);
}

#[test]
fn payloads_spell_the_input_without_directives() {
    let tokens = Markup::parse("[red]Alert[] nor[[mal\n[#010203]x[oops]y");
    assert_eq!(payloads(&tokens), "Alert nor[mal\nx[oops]y");
    let plain = "no brackets here]\n at all";
    assert_eq!(payloads(&Markup::parse(plain)), plain);
}

#[test]
fn non_ascii_text_is_kept() {
    assert_eq!(
        from_str("[gold]\u{2605} caf\u{e9}[]\u{65e5}\u{672c}"),
        vec![
            seg("\u{2605} caf\u{e9}", Color { r: 0xff, g: 0xd7, b: 0x00, a: 0xff }),
            seg("\u{65e5}\u{672c}", WHITE)
        ]
    );
}

#[test]
fn render_takes_tokens_as_given() {
    let tokens = vec![
        Markup::Popped,
        Markup::Escaped,
        Markup::HexColor { r: 1, g: 2, b: 3, a: Some(4) },
        Markup::NewLine,
        Markup::Named(Name::Black),
        text("t"),
    ];
    assert_eq!(
        render(&tokens),
        vec![
            seg("[", WHITE),
            seg("\n", Color { r: 1, g: 2, b: 3, a: 4 }),
            seg("t", Color { r: 0, g: 0, b: 0, a: 255 })
        ]
    );
}

#[test]
fn current_colour_of_a_stack() {
    assert_eq!(current(&vec![]), WHITE);
    assert_eq!(current(&vec![RED, BLUE]), BLUE);
}

#[test]
fn hex_digits() {
    assert_eq!(hex_digit('0'), Some(0));
    assert_eq!(hex_digit('9'), Some(9));
    assert_eq!(hex_digit('a'), Some(10));
    assert_eq!(hex_digit('f'), Some(15));
    assert_eq!(hex_digit('A'), Some(10));
    assert_eq!(hex_digit('F'), Some(15));
    assert_eq!(hex_digit('g'), None);
    assert_eq!(hex_digit('G'), None);
    assert_eq!(hex_digit('/'), None);
    assert_eq!(hex_digit(':'), None);
    assert_eq!(hex_digit('@'), None);
    assert_eq!(hex_digit('`'), None);
    assert_eq!(hex_digit('\u{ff10}'), None);
}

#[test]
fn directive_contents() {
    let chars = |s: &str| s.chars().collect::<Vec<char>>();
    assert_eq!(read_directive(&chars("")), Some(Markup::Popped));
    assert_eq!(read_directive(&chars("sky")), Some(Markup::Named(Name::Sky)));
    assert_eq!(
        read_directive(&chars("#000000")),
        Some(Markup::HexColor { r: 0, g: 0, b: 0, a: None })
    );
    assert_eq!(read_directive(&chars("#00000")), None);
    assert_eq!(read_directive(&chars("nothing")), None);
}

#[test]
fn palette_names_and_values() {
    let chars = |s: &str| s.chars().collect::<Vec<char>>();
    assert_eq!(Name::lookup(&chars("white")), Some(Name::White));
    assert_eq!(Name::lookup(&chars("maroon")), Some(Name::Maroon));
    assert_eq!(Name::lookup(&chars("lightgray")), Some(Name::LightGray));
    assert_eq!(Name::lookup(&chars("WHITE")), None);
    assert_eq!(Name::lookup(&chars("whit")), None);
    assert_eq!(Name::lookup(&chars("whites")), None);
    assert_eq!(Name::lookup(&chars("")), None);
    assert_eq!(Name::all().len(), 35);
    for name in Name::all() {
        assert_eq!(Name::lookup(&chars(name.as_str())), Some(name));
    }
    assert_eq!(Color::from_name(Name::White), Color::white());
    assert_eq!(Color::from_name(Name::Clear), Color { r: 0, g: 0, b: 0, a: 0 });
    assert_eq!(Color::from_name(Name::Royal), Color { r: 0x41, g: 0x69, b: 0xe1, a: 0xff });
    assert_eq!(Color::from_rgb(1, 2, 3), Color { r: 1, g: 2, b: 3, a: 255 });
    assert_eq!(Color::from_rgba(1, 2, 3, 4), Color { r: 1, g: 2, b: 3, a: 4 });
}

#[test]
fn colour_as_a_style_sheet_writes_it() {
    assert_eq!(Color::white().to_css(), "#ffffffff");
    assert_eq!(Color::from_name(Name::Red).to_css(), "#ff0000ff");
    assert_eq!(Color { r: 0, g: 9, b: 10, a: 15 }.to_css(), "#00090a0f");
    assert_eq!(Color { r: 0x12, g: 0xab, b: 0xcd, a: 0xef }.to_css(), "#12abcdef");
    assert_eq!(Color::from_name(Name::Clear).to_css(), "#00000000");
}
