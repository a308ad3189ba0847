//! The colour stack: turns the tokens of a markup text into styled segments.
//!
//! A colour directive pushes its colour, `[]` pops the innermost one, and
//! every piece of literal content is emitted in the colour on top of the
//! stack, or in white where the stack is empty.

use crate::color::Color;
use crate::markup::{tokens_of, views, Markup, Token};
use vstd::prelude::*;

verus! {

/// A piece of text and the colour to show it in, as a mathematical value.
pub struct Span {
    pub text: Seq<char>,
    pub color: Color,
}

/// A piece of text and the colour to show it in.
#[derive(Clone, Debug, PartialEq, Eq)]
pub struct Segment {
    pub text: String,
    pub color: Color,
}

impl View for Segment {
    type V = Span;

    open spec fn view(&self) -> Span {
        Span { text: self.text@, color: self.color }
    }
}

/// The segments of `segments`, each as a mathematical value.
pub open spec fn spans(segments: Seq<Segment>) -> Seq<Span> {
    segments.map_values(|s: Segment| s@)
}

/// The colour in force: the top of the stack, or white under an empty stack.
pub open spec fn top(stack: Seq<Color>) -> Color {
    if stack.len() == 0 {
        Color::spec_white()
    } else {
        stack.last()
    }
}

/// Whether the token pushes a colour.
pub open spec fn is_push(token: Token) -> bool {
    token is HexColor || token is Named
}

/// The colour that a colour directive stands for.
pub open spec fn resolved(token: Token) -> Color
    recommends
        is_push(token),
{
    match token {
        Token::HexColor { r, g, b, a: Some(a) } => Color { r, g, b, a },
        Token::HexColor { r, g, b, a: None } => Color { r, g, b, a: 255 },
        Token::Named(name) => Color::of_name(name),
        _ => Color::spec_white(),
    }
}

/// The stack after one token. A pop under an empty stack leaves it empty.
pub open spec fn stack_step(stack: Seq<Color>, token: Token) -> Seq<Color> {
    if is_push(token) {
        stack.push(resolved(token))
    } else if token is Popped && stack.len() > 0 {
        stack.drop_last()
    } else {
        stack
    }
}

/// What one token emits under `stack`.
pub open spec fn emitted(stack: Seq<Color>, token: Token) -> Seq<Span> {
    match token {
        Token::Text(text) => seq![Span { text, color: top(stack) }],
        Token::Escaped => seq![Span { text: seq!['['], color: top(stack) }],
        Token::NewLine => seq![Span { text: seq!['\n'], color: top(stack) }],
        _ => Seq::empty(),
    }
}

/// The stack after `tokens`, taken in order, starting from `stack`.
pub open spec fn stack_after(tokens: Seq<Token>, stack: Seq<Color>) -> Seq<Color>
    decreases tokens.len(),
{
    if tokens.len() == 0 {
        stack
    } else {
        stack_step(stack_after(tokens.drop_last(), stack), tokens.last())
    }
}

/// The segments that `tokens` emit, taken in order, starting from `stack`.
pub open spec fn rendered(tokens: Seq<Token>, stack: Seq<Color>) -> Seq<Span>
    decreases tokens.len(),
{
    if tokens.len() == 0 {
        Seq::empty()
    } else {
        rendered(tokens.drop_last(), stack) + emitted(
            stack_after(tokens.drop_last(), stack),
            tokens.last(),
        )
    }
}

/// The number of tokens of `tokens` that push a colour.
pub open spec fn pushes(tokens: Seq<Token>) -> nat
    decreases tokens.len(),
{
    if tokens.len() == 0 {
        0
    } else {
        pushes(tokens.drop_last()) + if is_push(tokens.last()) {
            1nat
        } else {
            0nat
        }
    }
}

/// The number of `Popped` tokens of `tokens`.
pub open spec fn pops(tokens: Seq<Token>) -> nat
    decreases tokens.len(),
{
    if tokens.len() == 0 {
        0
    } else {
        pops(tokens.drop_last()) + if tokens.last() is Popped {
            1nat
        } else {
            0nat
        }
    }
}

/// The colour in force under `stack`.
pub fn current(stack: &Vec<Color>) -> (color: Color)
    ensures
        color == top(stack@),
{
    if stack.len() == 0 {
        Color::white()
    } else {
        stack[stack.len() - 1]
    }
}

/// Renders tokens into styled segments, with a colour stack that starts
/// empty and is dropped at the end.
pub fn render(tokens: &Vec<Markup>) -> (segments: Vec<Segment>)
    ensures
        spans(segments@) == rendered(views(tokens@), Seq::empty()),
{
    let mut stack: Vec<Color> = Vec::new();
    let mut segments: Vec<Segment> = Vec::new();
    let mut i: usize = 0;
    while i < tokens.len()
        invariant
            i <= tokens.len(),
            stack@ == stack_after(views(tokens@).take(i as int), Seq::empty()),
            spans(segments@) == rendered(views(tokens@).take(i as int), Seq::empty()),
        decreases tokens.len() - i,
    {
        proof {
            let all = views(tokens@);
            assert(all.take(i + 1).drop_last() =~= all.take(i as int));
            assert(all.take(i + 1).last() == tokens@[i as int]@);
        }
        let ghost before = spans(segments@);
        let ghost under = stack@;
        match &tokens[i] {
            Markup::HexColor { r, g, b, a } => {
                match a {
                    Some(a) => stack.push(Color::from_rgba(*r, *g, *b, *a)),
                    None => stack.push(Color::from_rgb(*r, *g, *b)),
                }
            },
            Markup::Named(name) => {
                stack.push(Color::from_name(*name));
            },
            Markup::Popped => {
                stack.pop();
            },
            Markup::Text(text) => {
                segments.push(Segment { text: text.clone(), color: current(&stack) });
            },
            Markup::Escaped => {
                let mut text = String::new();
                text.push('[');
                segments.push(Segment { text, color: current(&stack) });
            },
            Markup::NewLine => {
                let mut text = String::new();
                text.push('\n');
                segments.push(Segment { text, color: current(&stack) });
            },
        }
        proof {
            assert(stack@ =~= stack_step(under, tokens@[i as int]@));
            assert(spans(segments@) =~= before + emitted(under, tokens@[i as int]@));
        }
        i += 1;
    }
    assert(views(tokens@).take(i as int) =~= views(tokens@));
    segments
}

/// Scans and renders a markup text: the styled segments of `input`.
pub fn from_str(input: &str) -> (segments: Vec<Segment>)
    ensures
        spans(segments@) == rendered(tokens_of(input@), Seq::empty()),
{
    let tokens = Markup::parse(input);
    render(&tokens)
}

/// Tokens taken in two parts: the second part starts from the stack that
/// the first part leaves.
pub proof fn stack_after_concat(first: Seq<Token>, second: Seq<Token>, stack: Seq<Color>)
    ensures
        stack_after(first + second, stack) == stack_after(second, stack_after(first, stack)),
    decreases second.len(),
{
    if second.len() == 0 {
        assert(first + second =~= first);
    } else {
        stack_after_concat(first, second.drop_last(), stack);
        assert((first + second).drop_last() =~= first + second.drop_last());
    }
}

/// Tokens taken in two parts emit what the first part emits, then what the
/// second part emits from the stack that the first part leaves.
pub proof fn rendered_concat(first: Seq<Token>, second: Seq<Token>, stack: Seq<Color>)
    ensures
        rendered(first + second, stack) == rendered(first, stack) + rendered(
            second,
            stack_after(first, stack),
        ),
    decreases second.len(),
{
    if second.len() == 0 {
        assert(first + second =~= first);
        assert(rendered(first, stack) + Seq::<Span>::empty() =~= rendered(first, stack));
    } else {
        rendered_concat(first, second.drop_last(), stack);
        stack_after_concat(first, second.drop_last(), stack);
        assert((first + second).drop_last() =~= first + second.drop_last());
        let under = stack_after(second.drop_last(), stack_after(first, stack));
        assert(rendered(first, stack) + (rendered(second.drop_last(), stack_after(first, stack))
            + emitted(under, second.last())) =~= (rendered(first, stack) + rendered(
            second.drop_last(),
            stack_after(first, stack),
        )) + emitted(under, second.last()));
    }
}

/// Stack floor: however many `Popped` tokens come, the stack holds at least
/// as many colours as were pushed and not popped, never fewer than none, and
/// at most as many as it started with and were pushed.
pub proof fn stack_floor(tokens: Seq<Token>, stack: Seq<Color>)
    ensures
        stack_after(tokens, stack).len() >= 0,
        stack_after(tokens, stack).len() >= stack.len() + pushes(tokens) - pops(tokens),
        stack_after(tokens, stack).len() <= stack.len() + pushes(tokens),
    decreases tokens.len(),
{
    if tokens.len() > 0 {
        stack_floor(tokens.drop_last(), stack);
    }
}

/// A pop that finds the stack empty does nothing: with it or without it,
/// the stack that results and the segments that come out are the same.
pub proof fn excess_pop_is_noop(before: Seq<Token>, after: Seq<Token>)
    requires
        stack_after(before, Seq::empty()).len() == 0,
    ensures
        stack_after(before.push(Token::Popped) + after, Seq::empty()) == stack_after(
            before + after,
            Seq::empty(),
        ),
        rendered(before.push(Token::Popped) + after, Seq::empty()) == rendered(
            before + after,
            Seq::empty(),
        ),
{
    let empty = Seq::<Color>::empty();
    let popped = before.push(Token::Popped);
    assert(popped.drop_last() =~= before);
    assert(stack_after(popped, empty) == stack_after(before, empty));
    assert(rendered(popped, empty) =~= rendered(before, empty));
    stack_after_concat(popped, after, empty);
    stack_after_concat(before, after, empty);
    rendered_concat(popped, after, empty);
    rendered_concat(before, after, empty);
}

} // verus!
