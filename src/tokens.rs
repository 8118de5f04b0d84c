//! The component values that the grid grammars read, and keyword matching.

use vstd::prelude::*;
use cssparser::{ToCss, Token as CssToken};

verus! {

/// A component value as the tokenizer hands it out, reduced to what the
/// grid grammars read.
#[derive(Debug)]
pub enum Component {
    /// An identifier, with its escapes resolved.
    Ident(String),
    /// A number: `Some` holds its value when it was written as an integer
    /// (saturated to the `i32` range), `None` when it has a fraction or an
    /// exponent.
    Number(Option<i32>),
    /// A dimension: its canonical text, and its unit.
    Dimension(String, String),
    /// A percentage: its canonical text.
    Percentage(String),
    /// A function: its name, and the source text after the `(`, up to and
    /// including the matching `)` where there is one.
    Function(String, String),
    /// A `[` block: the source text after the `[`, up to and including the
    /// matching `]` where there is one.
    Brackets(String),
    /// A `,`.
    Comma,
    /// Any other component value.
    Other,
}

/// A grammar violation, at the index of the token where it was found.
#[derive(Clone, Copy, Debug, PartialEq, Eq, Structural)]
pub struct ParseError {
    pub position: usize,
}

/// What a token is, in mathematical terms.
pub enum ComponentView {
    Ident(Seq<char>),
    Number(Option<i32>),
    Dimension(Seq<char>, Seq<char>),
    Percentage(Seq<char>),
    Function(Seq<char>, Seq<char>),
    Brackets(Seq<char>),
    Comma,
    Other,
}

impl View for Component {
    type V = ComponentView;

    open spec fn view(&self) -> ComponentView {
        match self {
            Component::Ident(s) => ComponentView::Ident(s@),
            Component::Number(n) => ComponentView::Number(*n),
            Component::Dimension(t, u) => ComponentView::Dimension(t@, u@),
            Component::Percentage(t) => ComponentView::Percentage(t@),
            Component::Function(n, b) => ComponentView::Function(n@, b@),
            Component::Brackets(b) => ComponentView::Brackets(b@),
            Component::Comma => ComponentView::Comma,
            Component::Other => ComponentView::Other,
        }
    }
}

/// The views of a sequence of tokens.
pub open spec fn component_views(v: Seq<Component>) -> Seq<ComponentView> {
    v.map_values(|t: Component| t@)
}

/// The top-level component values that the CSS tokenizer reads from a text,
/// whitespace and comments skipped; a function or `[` block stands as one
/// value, with empty contents.
pub uninterp spec fn css_tokens(s: Seq<char>) -> Seq<ComponentView>;

/// The source text of the contents of each top-level function or `[` block
/// of a text, in order, each up to and including its closing token where
/// there is one.
pub uninterp spec fn css_blocks(s: Seq<char>) -> Seq<Seq<char>>;

/// Relies on cssparser's `Parser::next`, and `ToCss` for `Token` for the
/// canonical text of a dimension or a percentage: the top-level component
/// values of the text, which depend on the text alone.
#[verifier::external_body]
fn top_level_tokens(s: &str) -> (r: Vec<Component>)
    ensures
        component_views(r@) == css_tokens(s@),
{
    let (mut input, mut r) = (cssparser::ParserInput::new(s), Vec::new());
    let mut p = cssparser::Parser::new(&mut input);
    while let Ok(t) = p.next() {
        r.push(match t {
            CssToken::Ident(v) => Component::Ident(v.to_string()),
            CssToken::Number { int_value, .. } => Component::Number(*int_value),
            CssToken::Dimension { unit, .. } => Component::Dimension(t.to_css_string(), unit.to_string()),
            CssToken::Percentage { .. } => Component::Percentage(t.to_css_string()),
            CssToken::Function(name) => Component::Function(name.to_string(), String::new()),
            CssToken::SquareBracketBlock => Component::Brackets(String::new()),
            CssToken::Comma => Component::Comma,
            _ => Component::Other,
        });
    }
    r
}

/// Relies on cssparser's `Parser::next`, `Parser::parse_nested_block` and
/// `Parser::slice_from`: the source text of the contents of each top-level
/// function or `[` block, which depends on the text alone.
#[verifier::external_body]
fn top_level_blocks(s: &str) -> (r: Vec<String>)
    ensures
        r@.map_values(|b: String| b@) == css_blocks(s@),
{
    let mut input = cssparser::ParserInput::new(s);
    let mut p = cssparser::Parser::new(&mut input);
    let mut r = Vec::new();
    while let Ok(t) = p.next().cloned() {
        let start = p.position();
        if matches!(t, CssToken::Function(_) | CssToken::SquareBracketBlock) {
            let _ = p.parse_nested_block(|_| Ok::<(), cssparser::ParseError<()>>(()));
            r.push(p.slice_from(start).to_string());
        }
    }
    r
}

/// Whether a component opens a block.
pub open spec fn is_block(c: ComponentView) -> bool {
    c is Function || c is Brackets
}

/// The components with the block contents handed out in order to those
/// that open a block.
pub open spec fn with_blocks(cs: Seq<ComponentView>, blocks: Seq<Seq<char>>) -> Seq<ComponentView>
    decreases cs.len(),
{
    if cs.len() == 0 {
        Seq::empty()
    } else {
        let c = cs[0];
        if is_block(c) && blocks.len() > 0 {
            let filled = match c {
                ComponentView::Function(n, _) => ComponentView::Function(n, blocks[0]),
                _ => ComponentView::Brackets(blocks[0]),
            };
            seq![filled] + with_blocks(cs.drop_first(), blocks.drop_first())
        } else {
            seq![c] + with_blocks(cs.drop_first(), blocks)
        }
    }
}

/// The component values of a text: the top-level ones, each block with
/// the source text of its contents.
pub open spec fn components_of(s: Seq<char>) -> Seq<ComponentView> {
    with_blocks(css_tokens(s), css_blocks(s))
}

/// The component values of a text, each block with the source text of its
/// contents.
pub fn tokenize(s: &str) -> (r: Vec<Component>)
    ensures
        component_views(r@) == components_of(s@),
{
    let toks = top_level_tokens(s);
    let blocks = top_level_blocks(s);
    let ghost cs = css_tokens(s@);
    let ghost bs = css_blocks(s@);
    let mut r: Vec<Component> = Vec::new();
    let mut i: usize = 0;
    let mut b: usize = 0;
    assert(cs.subrange(0, cs.len() as int) =~= cs);
    assert(bs.subrange(0, bs.len() as int) =~= bs);
    assert(component_views(r@) =~= Seq::<ComponentView>::empty());
    assert(Seq::<ComponentView>::empty() + with_blocks(cs, bs) =~= with_blocks(cs, bs));
    while i < toks.len()
        invariant
            i <= toks@.len(),
            b <= blocks@.len(),
            cs == component_views(toks@),
            bs == blocks@.map_values(|x: String| x@),
            with_blocks(cs, bs) == component_views(r@) + with_blocks(
                cs.subrange(i as int, cs.len() as int),
                bs.subrange(b as int, bs.len() as int),
            ),
        decreases toks@.len() - i,
    {
        let ghost rest = cs.subrange(i as int, cs.len() as int);
        let ghost brest = bs.subrange(b as int, bs.len() as int);
        assert(rest.drop_first() =~= cs.subrange(i + 1, cs.len() as int));
        assert(rest[0] == toks@[i as int]@);
        let c = &toks[i];
        let opens = match c {
            Component::Function(..) => true,
            Component::Brackets(..) => true,
            _ => false,
        };
        if opens && b < blocks.len() {
            assert(brest.drop_first() =~= bs.subrange(b + 1, bs.len() as int));
            assert(brest[0] == blocks@[b as int]@);
            let contents = blocks[b].clone();
            let filled = match c {
                Component::Function(n, _) => Component::Function(n.clone(), contents),
                _ => Component::Brackets(contents),
            };
            r.push(filled);
            b = b + 1;
        } else {
            r.push(c.copy());
        }
        assert(component_views(r@) =~= component_views(r@.drop_last()).push(r@.last()@));
        i = i + 1;
    }
    assert(cs.subrange(i as int, cs.len() as int) =~= Seq::<ComponentView>::empty());
    assert(component_views(r@) + Seq::<ComponentView>::empty() =~= component_views(r@));
    r
}

impl Component {
    /// A copy of this component.
    pub fn copy(&self) -> (r: Component)
        ensures
            r@ == self@,
    {
        match self {
            Component::Ident(s) => Component::Ident(s.clone()),
            Component::Number(n) => Component::Number(*n),
            Component::Dimension(t, u) => Component::Dimension(t.clone(), u.clone()),
            Component::Percentage(t) => Component::Percentage(t.clone()),
            Component::Function(n, b) => Component::Function(n.clone(), b.clone()),
            Component::Brackets(b) => Component::Brackets(b.clone()),
            Component::Comma => Component::Comma,
            Component::Other => Component::Other,
        }
    }
}

/// `c` is `p` up to ASCII case, where `p` is written in lower case.
pub open spec fn char_matches(c: char, p: char) -> bool {
    c == p || (97 <= (p as u32) <= 122 && (c as u32) + 32 == (p as u32))
}

/// `s` equals the lower-case keyword `kw`, ignoring ASCII case.
pub open spec fn matches_keyword(s: Seq<char>, kw: Seq<char>) -> bool {
    s.len() == kw.len() && forall|i: int| 0 <= i < s.len() ==> char_matches(#[trigger] s[i], kw[i])
}

/// Whether `s` equals the lower-case keyword `kw`, ignoring ASCII case.
pub fn keyword_matches(s: &str, kw: &str) -> (r: bool)
    ensures
        r == matches_keyword(s@, kw@),
{
    let n = s.unicode_len();
    if n != kw.unicode_len() {
        return false;
    }
    let mut i: usize = 0;
    while i < n
        invariant
            n == s@.len(),
            n == kw@.len(),
            i <= n,
            forall|j: int| 0 <= j < i ==> char_matches(#[trigger] s@[j], kw@[j]),
        decreases n - i,
    {
        let c = s.get_char(i);
        let p = kw.get_char(i);
        if !(c == p || (97 <= (p as u32) && (p as u32) <= 122 && (c as u32) + 32 == (p as u32))) {
            return false;
        }
        i = i + 1;
    }
    true
}

} // verus!
