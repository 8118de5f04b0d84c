//! `<grid-line>`: a line named, numbered, or spanned to.

use vstd::prelude::*;
use vstd::string::StringExecFns;
use crate::text::{decimal, ident_text, int_text, serialize_ident};
use crate::tokens::{components_of, char_matches, keyword_matches, matches_keyword, tokenize, css_tokens, component_views, ParseError, Component, ComponentView};

verus! {

/// The least line number kept; smaller ones are raised to it.
pub const MIN_GRID_LINE: i32 = -10000;

/// The greatest line number kept; greater ones are lowered to it.
pub const MAX_GRID_LINE: i32 = 10000;

/// A `<grid-line>`. `auto` is the value with no identifier, line number zero
/// and no `span`.
#[derive(Clone, Debug)]
pub struct GenericGridLine {
    /// A custom identifier for named lines, or empty.
    pub ident: String,
    /// The nth grid line, or zero when none is given; kept within
    /// `MIN_GRID_LINE..=MAX_GRID_LINE`.
    pub line_num: i32,
    /// Whether the `span` keyword is present.
    pub is_span: bool,
}

pub type GridLine = GenericGridLine;

/// A `<grid-line>` in mathematical terms.
pub struct GridLineView {
    pub ident: Seq<char>,
    pub line_num: i32,
    pub is_span: bool,
}

impl View for GenericGridLine {
    type V = GridLineView;

    open spec fn view(&self) -> GridLineView {
        GridLineView { ident: self.ident@, line_num: self.line_num, is_span: self.is_span }
    }
}

/// The `auto` value.
pub open spec fn auto_line() -> GridLineView {
    GridLineView { ident: Seq::empty(), line_num: 0, is_span: false }
}

impl GridLineView {
    pub open spec fn is_auto(self) -> bool {
        self.ident.len() == 0 && self.line_num == 0 && !self.is_span
    }

    pub open spec fn is_ident_only(self) -> bool {
        self.ident.len() != 0 && self.line_num == 0 && !self.is_span
    }

    /// Whether `self` makes `other` omittable in a two-value shorthand.
    pub open spec fn can_omit(self, other: GridLineView) -> bool {
        if self.is_ident_only() {
            self == other
        } else {
            other.is_auto()
        }
    }
}

impl PartialEq for GenericGridLine {
    fn eq(&self, other: &GenericGridLine) -> (r: bool) {
        self.ident == other.ident && self.line_num == other.line_num && self.is_span == other.is_span
    }
}

impl vstd::std_specs::cmp::PartialEqSpecImpl for GenericGridLine {
    open spec fn obeys_eq_spec() -> bool {
        true
    }

    open spec fn eq_spec(&self, other: &GenericGridLine) -> bool {
        self@ == other@
    }
}

/// A line number brought within `MIN_GRID_LINE..=MAX_GRID_LINE`.
pub open spec fn clamp_line(v: i32) -> i32 {
    if v < MIN_GRID_LINE {
        MIN_GRID_LINE
    } else if v > MAX_GRID_LINE {
        MAX_GRID_LINE
    } else {
        v
    }
}

/// An identifier that may name a grid line: neither `auto` nor a CSS-wide
/// keyword, in any ASCII case.
pub open spec fn is_line_name(s: Seq<char>) -> bool {
    &&& !matches_keyword(s, "auto"@)
    &&& !matches_keyword(s, "initial"@)
    &&& !matches_keyword(s, "inherit"@)
    &&& !matches_keyword(s, "unset"@)
    &&& !matches_keyword(s, "revert"@)
    &&& !matches_keyword(s, "revert-layer"@)
    &&& !matches_keyword(s, "default"@)
}

/// Whether an identifier may name a grid line.
pub fn line_name_allowed(s: &str) -> (r: bool)
    ensures
        r == is_line_name(s@),
{
    !keyword_matches(s, "auto") && !keyword_matches(s, "initial") && !keyword_matches(s, "inherit")
        && !keyword_matches(s, "unset") && !keyword_matches(s, "revert")
        && !keyword_matches(s, "revert-layer") && !keyword_matches(s, "default")
}

/// What one token does to a `<grid-line>` being read.
pub enum LineStep {
    /// The token is taken; the line and the "a value came before `span`" flag after it.
    Take(GridLineView, bool),
    /// The token is not part of the line.
    Stop,
    /// The token makes the line invalid.
    Fail,
}

/// One step of reading a `<grid-line>`: `span` may come once, and only first
/// or last; an integer (nonzero) and a name once each.
pub open spec fn line_step(line: GridLineView, before_span: bool, t: ComponentView) -> LineStep {
    match t {
        ComponentView::Ident(s) => {
            if matches_keyword(s, "span"@) {
                if line.is_span {
                    LineStep::Fail
                } else {
                    LineStep::Take(
                        GridLineView { ident: line.ident, line_num: line.line_num, is_span: true },
                        before_span || line.line_num != 0 || line.ident.len() != 0,
                    )
                }
            } else if is_line_name(s) {
                if before_span || line.ident.len() != 0 {
                    LineStep::Fail
                } else {
                    LineStep::Take(
                        GridLineView { ident: s, line_num: line.line_num, is_span: line.is_span },
                        before_span,
                    )
                }
            } else {
                LineStep::Stop
            }
        },
        ComponentView::Number(Some(v)) => {
            if v == 0 || before_span || line.line_num != 0 {
                LineStep::Fail
            } else {
                LineStep::Take(
                    GridLineView { ident: line.ident, line_num: clamp_line(v), is_span: line.is_span },
                    before_span,
                )
            }
        },
        _ => LineStep::Stop,
    }
}

/// Reads at most `rounds` tokens of a `<grid-line>` from `pos`: the line and
/// the position after it, or the position of the offending token.
pub open spec fn line_scan(
    toks: Seq<ComponentView>,
    pos: int,
    rounds: nat,
    line: GridLineView,
    before_span: bool,
) -> Result<(GridLineView, int), int>
    decreases rounds,
{
    if rounds == 0 || pos < 0 || pos >= toks.len() {
        Ok((line, pos))
    } else {
        match line_step(line, before_span, toks[pos]) {
            LineStep::Take(l, b) => line_scan(toks, pos + 1, (rounds - 1) as nat, l, b),
            LineStep::Stop => Ok((line, pos)),
            LineStep::Fail => Err(pos),
        }
    }
}

/// Whether a line read without `auto` is complete: something was read, and
/// a `span` has a positive number or a name.
pub open spec fn line_complete(l: GridLineView) -> bool {
    &&& !l.is_auto()
    &&& l.is_span ==> (l.line_num > 0 || (l.line_num == 0 && l.ident.len() != 0))
}

/// The `<grid-line>` at `pos` and the position after it, or the position of
/// the grammar violation.
pub open spec fn parse_line(toks: Seq<ComponentView>, pos: int) -> Result<(GridLineView, int), int> {
    if 0 <= pos < toks.len() && toks[pos] is Ident && matches_keyword(toks[pos]->Ident_0, "auto"@) {
        Ok((auto_line(), pos + 1))
    } else {
        match line_scan(toks, pos, 3, auto_line(), false) {
            Ok((l, p)) => if line_complete(l) {
                Ok((l, p))
            } else {
                Err(p)
            },
            Err(p) => Err(p),
        }
    }
}

/// A `<grid-line>` that stands alone in `toks`.
pub open spec fn parse_line_all(toks: Seq<ComponentView>) -> Result<GridLineView, int> {
    match parse_line(toks, 0) {
        Ok((l, p)) => if p == toks.len() {
            Ok(l)
        } else {
            Err(p)
        },
        Err(p) => Err(p),
    }
}

/// The canonical text of a `<grid-line>`.
pub open spec fn line_text(l: GridLineView) -> Seq<char> {
    let name = if l.ident.len() != 0 {
        " "@ + ident_text(l.ident)
    } else {
        Seq::empty()
    };
    if l.is_auto() {
        "auto"@
    } else if l.is_ident_only() {
        ident_text(l.ident)
    } else if l.is_span {
        let num = if l.line_num != 0 && !(l.line_num == 1 && l.ident.len() != 0) {
            " "@ + decimal(l.line_num as int)
        } else {
            Seq::empty()
        };
        "span"@ + num + name
    } else {
        decimal(l.line_num as int) + name
    }
}

/// The tokens of the canonical text of a `<grid-line>`.
pub open spec fn line_tokens(l: GridLineView) -> Seq<ComponentView> {
    let name = if l.ident.len() != 0 {
        seq![ComponentView::Ident(l.ident)]
    } else {
        Seq::empty()
    };
    if l.is_auto() {
        seq![ComponentView::Ident("auto"@)]
    } else if l.is_ident_only() {
        seq![ComponentView::Ident(l.ident)]
    } else if l.is_span {
        let num = if l.line_num != 0 && !(l.line_num == 1 && l.ident.len() != 0) {
            seq![ComponentView::Number(Some(l.line_num))]
        } else {
            Seq::empty()
        };
        seq![ComponentView::Ident("span"@)] + num + name
    } else {
        seq![ComponentView::Number(Some(l.line_num))] + name
    }
}

/// A `<grid-line>` that reading can produce: its number within the limits,
/// its name (if any) a line name other than `span`, and either `auto` or
/// complete.
pub open spec fn line_valid(l: GridLineView) -> bool {
    &&& MIN_GRID_LINE <= l.line_num <= MAX_GRID_LINE
    &&& l.ident.len() != 0 ==> is_line_name(l.ident) && !matches_keyword(l.ident, "span"@)
    &&& l.is_auto() || line_complete(l)
}

/// Reading the canonical form of a valid `<grid-line>` gives back the same
/// line, except that `span 1 <name>` comes back as `span <name>`; in every
/// case the line read has the same canonical text and tokens.
pub proof fn lemma_line_round_trip(l: GridLineView)
    requires
        line_valid(l),
    ensures
        parse_line_all(line_tokens(l)) is Ok,
        line_text(parse_line_all(line_tokens(l))->Ok_0) == line_text(l),
        line_tokens(parse_line_all(line_tokens(l))->Ok_0) == line_tokens(l),
        !(l.is_span && l.line_num == 1 && l.ident.len() != 0) ==> parse_line_all(line_tokens(l))
            == Ok::<GridLineView, int>(l),
{
    reveal_with_fuel(line_scan, 4);
    reveal_strlit("auto");
    reveal_strlit("span");
    let t = line_tokens(l);
    if l.ident.len() == 0 {
        assert(l.ident =~= Seq::<char>::empty());
    }
    if l.is_auto() {
        assert(matches_keyword(t[0]->Ident_0, "auto"@));
        assert(l.ident =~= Seq::<char>::empty());
    } else {
        if l.ident.len() != 0 {
            assert(!matches_keyword(l.ident, "auto"@));
        }
        if l.is_span {
            assert(matches_keyword("span"@, "span"@));
            assert(!matches_keyword("span"@, "auto"@)) by {
                assert("span"@[0] == 's' && "auto"@[0] == 'a');
                assert(!char_matches("span"@[0], "auto"@[0]));
            }
        }
        if l.is_span && l.line_num == 1 && l.ident.len() != 0 {
            let l2 = GridLineView { ident: l.ident, line_num: 0, is_span: true };
            assert(parse_line_all(t) == Ok::<GridLineView, int>(l2));
        } else if l.is_ident_only() {
            assert(parse_line_all(t) == Ok::<GridLineView, int>(l));
        } else if !l.is_span {
            if l.ident.len() != 0 {
                assert(t[1] == ComponentView::Ident(l.ident));
            }
            assert(parse_line_all(t) == Ok::<GridLineView, int>(l));
        } else if l.line_num == 0 {
            assert(t[1] == ComponentView::Ident(l.ident));
            let s1 = GridLineView { ident: Seq::empty(), line_num: 0, is_span: true };
            assert(line_step(auto_line(), false, t[0]) == LineStep::Take(s1, false));
            assert(line_step(s1, false, t[1]) == LineStep::Take(l, false));
            assert(parse_line_all(t) == Ok::<GridLineView, int>(l));
        } else if l.ident.len() == 0 {
            assert(t[1] == ComponentView::Number(Some(l.line_num)));
            assert(parse_line_all(t) == Ok::<GridLineView, int>(l));
        } else {
            assert(t[1] == ComponentView::Number(Some(l.line_num)));
            assert(t[2] == ComponentView::Ident(l.ident));
            assert(parse_line_all(t) == Ok::<GridLineView, int>(l));
        }
    }
}

/// A parse result in mathematical terms: the line and the position after
/// it, or the position of the grammar violation.
pub open spec fn line_result(r: Result<(GridLine, usize), ParseError>) -> Result<(GridLineView, int), int> {
    match r {
        Ok((l, p)) => Ok((l@, p as int)),
        Err(e) => Err(e.position as int),
    }
}

impl GridLine {
    /// The `auto` value.
    pub fn auto() -> (r: GridLine)
        ensures
            r@ == auto_line(),
    {
        GenericGridLine { ident: String::new(), line_num: 0, is_span: false }
    }

    /// Whether this is `auto`.
    pub fn is_auto(&self) -> (r: bool)
        ensures
            r == self@.is_auto(),
    {
        self.ident.unicode_len() == 0 && self.line_num == 0 && !self.is_span
    }

    /// Whether this is a `<custom-ident>` alone.
    pub fn is_ident_only(&self) -> (r: bool)
        ensures
            r == self@.is_ident_only(),
    {
        self.ident.unicode_len() != 0 && self.line_num == 0 && !self.is_span
    }

    /// Whether `self` makes `other` omittable in the `grid-row`,
    /// `grid-column` and `grid-area` shorthands.
    pub fn can_omit(&self, other: &GridLine) -> (r: bool)
        ensures
            r == self@.can_omit(other@),
    {
        if self.is_ident_only() {
            self.eq(other)
        } else {
            other.is_auto()
        }
    }
}

impl GridLine {
    /// Reads a `<grid-line>` from `toks` at `pos`: `auto`, or up to three
    /// tokens among `span`, a nonzero integer (clamped to the line limits) and
    /// a line name, with `span` first or last. Returns the line and the
    /// position after it.
    pub fn parse_tokens(toks: &Vec<Component>, pos: usize) -> (r: Result<(GridLine, usize), ParseError>)
        ensures
            line_result(r) == parse_line(component_views(toks@), pos as int),
    {
        let ghost tv = component_views(toks@);
        if pos < toks.len() {
            if let Component::Ident(s) = &toks[pos] {
                if keyword_matches(s.as_str(), "auto") {
                    return Ok((Self::auto(), pos + 1));
                }
            }
        }
        assert(!(0 <= pos < tv.len() && tv[pos as int] is Ident && matches_keyword(
            tv[pos as int]->Ident_0,
            "auto"@,
        ))) by {
            if 0 <= pos < tv.len() {
                assert(tv[pos as int] == toks@[pos as int]@);
            }
        }
        let mut line = Self::auto();
        let mut before_span = false;
        let mut p = pos;
        let mut k: usize = 0;
        let mut done = false;
        while k < 3 && !done
            invariant
                k <= 3,
                !(0 <= pos < tv.len() && tv[pos as int] is Ident && matches_keyword(
                    tv[pos as int]->Ident_0,
                    "auto"@,
                )),
                p as int == pos as int + k,
                tv == component_views(toks@),
                line_scan(tv, pos as int, 3, auto_line(), false) == line_scan(
                    tv,
                    p as int,
                    (3 - k) as nat,
                    line@,
                    before_span,
                ),
                done ==> line_scan(tv, p as int, (3 - k) as nat, line@, before_span) == Ok::<
                    (GridLineView, int),
                    int,
                >((line@, p as int)),
            decreases 3 - k + (if done { 0int } else { 1int }),
        {
            if p >= toks.len() {
                done = true;
            } else {
                assert(tv[p as int] == toks@[p as int]@);
                match &toks[p] {
                    Component::Ident(s) => {
                        if keyword_matches(s.as_str(), "span") {
                            if line.is_span {
                                return Err(ParseError { position: p });
                            }
                            if line.line_num != 0 || line.ident.unicode_len() != 0 {
                                before_span = true;
                            }
                            line.is_span = true;
                            p = p + 1;
                            k = k + 1;
                        } else if line_name_allowed(s.as_str()) {
                            if before_span || line.ident.unicode_len() != 0 {
                                return Err(ParseError { position: p });
                            }
                            line.ident = s.clone();
                            p = p + 1;
                            k = k + 1;
                        } else {
                            done = true;
                        }
                    },
                    Component::Number(Some(v)) => {
                        let v = *v;
                        if v == 0 || before_span || line.line_num != 0 {
                            return Err(ParseError { position: p });
                        }
                        line.line_num = if v < MIN_GRID_LINE {
                            MIN_GRID_LINE
                        } else if v > MAX_GRID_LINE {
                            MAX_GRID_LINE
                        } else {
                            v
                        };
                        p = p + 1;
                        k = k + 1;
                    },
                    _ => {
                        done = true;
                    },
                }
            }
        }
        if line.is_auto() {
            return Err(ParseError { position: p });
        }
        if line.is_span {
            if line.line_num != 0 {
                if line.line_num <= 0 {
                    return Err(ParseError { position: p });
                }
            } else if line.ident.unicode_len() == 0 {
                return Err(ParseError { position: p });
            }
        }
        Ok((line, p))
    }

    /// Reads a text that holds a `<grid-line>` and nothing else.
    pub fn parse(text: &str) -> (r: Result<GridLine, ParseError>)
        ensures
            match r {
                Ok(l) => parse_line_all(components_of(text@)) == Ok::<GridLineView, int>(l@),
                Err(e) => parse_line_all(components_of(text@)) == Err::<GridLineView, int>(e.position as int),
            },
    {
        let toks = tokenize(text);
        match Self::parse_tokens(&toks, 0) {
            Ok((l, p)) => {
                if p == toks.len() {
                    Ok(l)
                } else {
                    Err(ParseError { position: p })
                }
            },
            Err(e) => Err(e),
        }
    }

    /// The canonical text of this line.
    pub fn to_css(&self) -> (r: String)
        ensures
            r@ == line_text(self@),
    {
        if self.is_auto() {
            return "auto".to_owned();
        }
        if self.is_ident_only() {
            return serialize_ident(self.ident.as_str());
        }
        let has_ident = self.ident.unicode_len() != 0;
        let mut r = if self.is_span {
            let mut r = "span".to_owned();
            if self.line_num != 0 && !(self.line_num == 1 && has_ident) {
                r.append(" ");
                r.append(int_text(self.line_num).as_str());
            }
            r
        } else {
            int_text(self.line_num)
        };
        if has_ident {
            r.append(" ");
            r.append(serialize_ident(self.ident.as_str()).as_str());
        }
        assert(r@ =~= line_text(self@));
        r
    }
}

} // verus!
