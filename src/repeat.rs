//! `repeat()`: its count, the track form and the line-name form.

use vstd::prelude::*;
use vstd::string::StringExecFns;
use crate::grid_line::MAX_GRID_LINE;
use crate::text::{concat_all, concat_serialize_idents, decimal, idents_text, ident_texts, int_text, joined, lemma_concat_push, lemma_joined_push};
use crate::tokens::{keyword_matches, matches_keyword, component_views, ParseError, Component, ComponentView};
use crate::track::{texts_of, CssText, GenericTrackSize};

verus! {

/// The first argument of `repeat()`.
#[derive(Clone, Copy, Debug, PartialEq, Eq, Structural)]
pub enum RepeatCount {
    /// A positive integer, at most `MAX_GRID_LINE`.
    Number(i32),
    /// `auto-fill`
    AutoFill,
    /// `auto-fit`
    AutoFit,
}

/// The repeat count at `pos` and the position after it, or the position of
/// the grammar violation: a positive integer (lowered to `MAX_GRID_LINE`),
/// or `auto-fill` or `auto-fit` in any ASCII case.
pub open spec fn parse_count(toks: Seq<ComponentView>, pos: int) -> Result<(RepeatCount, int), int> {
    if 0 <= pos < toks.len() {
        match toks[pos] {
            ComponentView::Number(Some(v)) => if v >= 1 {
                Ok((RepeatCount::Number(if v > MAX_GRID_LINE { MAX_GRID_LINE } else { v }), pos + 1))
            } else {
                Err(pos)
            },
            ComponentView::Ident(s) => if matches_keyword(s, "auto-fill"@) {
                Ok((RepeatCount::AutoFill, pos + 1))
            } else if matches_keyword(s, "auto-fit"@) {
                Ok((RepeatCount::AutoFit, pos + 1))
            } else {
                Err(pos)
            },
            _ => Err(pos),
        }
    } else {
        Err(pos)
    }
}

/// A parse result in mathematical terms.
pub open spec fn count_result(r: Result<(RepeatCount, usize), ParseError>) -> Result<(RepeatCount, int), int> {
    match r {
        Ok((c, p)) => Ok((c, p as int)),
        Err(e) => Err(e.position as int),
    }
}

impl RepeatCount {
    /// Reads a repeat count from `toks` at `pos`.
    pub fn parse_tokens(toks: &Vec<Component>, pos: usize) -> (r: Result<(RepeatCount, usize), ParseError>)
        ensures
            count_result(r) == parse_count(component_views(toks@), pos as int),
    {
        if pos >= toks.len() {
            return Err(ParseError { position: pos });
        }
        assert(component_views(toks@)[pos as int] == toks@[pos as int]@);
        match &toks[pos] {
            Component::Number(Some(v)) => {
                let v = *v;
                if v >= 1 {
                    Ok((RepeatCount::Number(if v > MAX_GRID_LINE { MAX_GRID_LINE } else { v }), pos + 1))
                } else {
                    Err(ParseError { position: pos })
                }
            },
            Component::Ident(s) => {
                if keyword_matches(s.as_str(), "auto-fill") {
                    Ok((RepeatCount::AutoFill, pos + 1))
                } else if keyword_matches(s.as_str(), "auto-fit") {
                    Ok((RepeatCount::AutoFit, pos + 1))
                } else {
                    Err(ParseError { position: pos })
                }
            },
            _ => Err(ParseError { position: pos }),
        }
    }
}

/// The component value that the text of a repeat count reads as.
pub open spec fn count_component(c: RepeatCount) -> ComponentView {
    match c {
        RepeatCount::Number(n) => ComponentView::Number(Some(n)),
        RepeatCount::AutoFill => ComponentView::Ident("auto-fill"@),
        RepeatCount::AutoFit => ComponentView::Ident("auto-fit"@),
    }
}

/// A repeat count that reading can produce.
pub open spec fn count_valid(c: RepeatCount) -> bool {
    c is Number ==> 1 <= c->Number_0 <= MAX_GRID_LINE
}

/// Reading the written form of a valid repeat count gives it back.
pub proof fn lemma_count_round_trip(c: RepeatCount)
    requires
        count_valid(c),
    ensures
        parse_count(seq![count_component(c)], 0) == Ok::<(RepeatCount, int), int>((c, 1)),
{
    reveal_strlit("auto-fill");
    reveal_strlit("auto-fit");
    let t = seq![count_component(c)];
    if c is AutoFit {
        assert(!matches_keyword(t[0]->Ident_0, "auto-fill"@));
        assert(matches_keyword(t[0]->Ident_0, "auto-fit"@));
    } else if c is AutoFill {
        assert(matches_keyword(t[0]->Ident_0, "auto-fill"@));
    }
}

impl CssText for RepeatCount {
    open spec fn css_text(&self) -> Seq<char> {
        match self {
            RepeatCount::Number(n) => decimal(*n as int),
            RepeatCount::AutoFill => "auto-fill"@,
            RepeatCount::AutoFit => "auto-fit"@,
        }
    }

    fn to_css(&self) -> (r: String) {
        match self {
            RepeatCount::Number(n) => int_text(*n),
            RepeatCount::AutoFill => "auto-fill".to_owned(),
            RepeatCount::AutoFit => "auto-fit".to_owned(),
        }
    }
}

/// The views of a sequence of `<line-names>`.
pub open spec fn names_views(v: Seq<Vec<String>>) -> Seq<Seq<String>> {
    v.map_values(|n: Vec<String>| n@)
}

/// `repeat(<count>, [<line-names>? <track-size>]+ <line-names>?)`.
#[derive(Clone, Debug, PartialEq)]
pub struct GenericTrackRepeat<L> {
    /// How many times the tracks repeat.
    pub count: RepeatCount,
    /// The `<line-names>` around the sizes: one before each size and one
    /// after the last, empty where none is written.
    pub line_names: Vec<Vec<String>>,
    /// The `<track-size>` values.
    pub track_sizes: Vec<GenericTrackSize<L>>,
}

pub type TrackRepeat<L> = GenericTrackRepeat<L>;

impl<L> TrackRepeat<L> {
    /// One more `<line-names>` than sizes.
    pub open spec fn wf(&self) -> bool {
        self.line_names@.len() == self.track_sizes@.len() + 1
    }
}

impl<L: CssText> TrackRepeat<L> {
    /// How many size and name pairs are written.
    pub open spec fn pairs(&self) -> int {
        if self.track_sizes@.len() <= self.line_names@.len() {
            self.track_sizes@.len() as int
        } else {
            self.line_names@.len() as int
        }
    }

    /// The text of the `i`th pair: a space after the first, the names in
    /// brackets when there are any, then the size.
    pub open spec fn pair_text(&self, i: int) -> Seq<char> {
        (if i > 0 {
            " "@
        } else {
            Seq::empty()
        }) + idents_text("["@, "] "@, self.line_names@[i]@, " "@) + self.track_sizes@[i].css_text()
    }

    /// The texts of all pairs.
    pub open spec fn pair_texts(&self) -> Seq<Seq<char>> {
        Seq::new(self.pairs() as nat, |i: int| self.pair_text(i))
    }

    /// The text of the names after the last pair, when there are any.
    pub open spec fn tail_text(&self) -> Seq<char> {
        if self.line_names@.len() > self.pairs() {
            idents_text(" ["@, "]"@, self.line_names@[self.pairs()]@, " "@)
        } else {
            Seq::empty()
        }
    }
}

impl<L: CssText> CssText for GenericTrackRepeat<L> {
    /// Empty `<line-names>` are not written.
    open spec fn css_text(&self) -> Seq<char> {
        "repeat("@ + self.count.css_text() + ", "@ + concat_all(self.pair_texts()) + self.tail_text() + ")"@
    }

    fn to_css(&self) -> (r: String) {
        let mut r = "repeat(".to_owned();
        r.append(self.count.to_css().as_str());
        r.append(", ");
        let ghost head = r@;
        let ghost parts = self.pair_texts();
        let n = if self.track_sizes.len() <= self.line_names.len() {
            self.track_sizes.len()
        } else {
            self.line_names.len()
        };
        let mut i: usize = 0;
        while i < n
            invariant
                i <= n,
                n == self.pairs(),
                parts == self.pair_texts(),
                r@ == head + concat_all(parts.take(i as int)),
            decreases n - i,
        {
            proof {
                lemma_concat_push(parts, i as int);
            }
            if i > 0 {
                r.append(" ");
            }
            r.append(concat_serialize_idents("[", "] ", &self.line_names[i], " ").as_str());
            r.append(self.track_sizes[i].to_css().as_str());
            assert(r@ =~= head + concat_all(parts.take(i + 1)));
            i = i + 1;
        }
        assert(parts.take(n as int) =~= parts);
        if n < self.line_names.len() {
            r.append(concat_serialize_idents(" [", "]", &self.line_names[n], " ").as_str());
        }
        r.append(")");
        assert(r@ =~= self.css_text());
        r
    }
}

/// Every `<line-names>` of a track `repeat()` is empty.
pub open spec fn no_names<L>(r: GenericTrackRepeat<L>) -> bool {
    forall|i: int| 0 <= i < r.line_names@.len() ==> (#[trigger] r.line_names@[i])@.len() == 0
}

proof fn lemma_pairs_joined<L: CssText>(r: GenericTrackRepeat<L>, k: int)
    requires
        r.wf(),
        no_names(r),
        0 <= k <= r.track_sizes@.len(),
    ensures
        concat_all(r.pair_texts().take(k)) == joined(texts_of(r.track_sizes@).take(k), " "@),
    decreases k,
{
    let parts = r.pair_texts();
    let texts = texts_of(r.track_sizes@);
    if k == 0 {
        assert(parts.take(0) =~= Seq::<Seq<char>>::empty());
        assert(texts.take(0) =~= Seq::<Seq<char>>::empty());
    } else {
        lemma_pairs_joined(r, k - 1);
        lemma_concat_push(parts, k - 1);
        lemma_joined_push(texts, " "@, k - 1);
        assert(r.line_names@[k - 1]@.len() == 0);
        if k - 1 == 0 {
            assert(parts[0] =~= texts[0]);
            assert(concat_all(parts.take(0)) =~= Seq::<char>::empty());
        } else {
            assert(parts[k - 1] =~= " "@ + texts[k - 1]);
        }
    }
}

/// In the text of a track `repeat()` an empty `<line-names>` is not written,
/// not even as `[]`: with every name group empty, the text holds the count
/// and the sizes alone.
pub proof fn lemma_repeat_skips_empty_names<L: CssText>(r: GenericTrackRepeat<L>)
    requires
        r.wf(),
        no_names(r),
    ensures
        r.css_text() == "repeat("@ + r.count.css_text() + ", "@ + joined(texts_of(r.track_sizes@), " "@) + ")"@,
{
    let n = r.track_sizes@.len() as int;
    lemma_pairs_joined(r, n);
    assert(r.pair_texts().take(n) =~= r.pair_texts());
    assert(texts_of(r.track_sizes@).take(n) =~= texts_of(r.track_sizes@));
    assert(r.line_names@[n]@.len() == 0);
    assert(r.tail_text() =~= Seq::<char>::empty());
    assert(r.css_text() =~= "repeat("@ + r.count.css_text() + ", "@ + joined(texts_of(r.track_sizes@), " "@) + ")"@);
}

/// `repeat(<integer> | auto-fill, <line-names>+)` in a subgrid's
/// `<line-name-list>`.
#[derive(Clone, Debug, PartialEq)]
pub struct GenericNameRepeat {
    /// How many times the names repeat; never `auto-fit`.
    pub count: RepeatCount,
    /// The `<line-names>`, at least one.
    pub line_names: Vec<Vec<String>>,
}

pub type NameRepeat = GenericNameRepeat;

/// The text of one `<line-names>`: its identifiers in brackets, `[]` when
/// there are none.
pub open spec fn bracketed(names: Seq<String>) -> Seq<char> {
    "["@ + joined(ident_texts(names), " "@) + "]"@
}

/// Unlike a track `repeat()`, a `<name-repeat>` or a subgrid's
/// `<line-name-list>` writes an empty `<line-names>` as `[]`.
pub proof fn lemma_empty_names_bracketed()
    ensures
        bracketed(Seq::<String>::empty()) == "[]"@,
{
    reveal_strlit("[");
    reveal_strlit("]");
    reveal_strlit("[]");
    assert(ident_texts(Seq::<String>::empty()) =~= Seq::<Seq<char>>::empty());
    assert(bracketed(Seq::<String>::empty()) =~= "[]"@);
}

impl NameRepeat {
    /// The count is not `auto-fit` and there is at least one `<line-names>`.
    pub open spec fn wf(&self) -> bool {
        !(self.count is AutoFit) && self.line_names@.len() >= 1
    }

    /// Whether the count is `auto-fill`.
    pub fn is_auto_fill(&self) -> (r: bool)
        ensures
            r == (self.count is AutoFill),
    {
        matches!(self.count, RepeatCount::AutoFill)
    }
}

impl CssText for GenericNameRepeat {
    /// Every `<line-names>` is written, `[]` for an empty one.
    open spec fn css_text(&self) -> Seq<char> {
        "repeat("@ + self.count.css_text() + ","@ + concat_all(
            names_views(self.line_names@).map_values(|n: Seq<String>| " "@ + bracketed(n)),
        ) + ")"@
    }

    fn to_css(&self) -> (r: String) {
        let mut r = "repeat(".to_owned();
        r.append(self.count.to_css().as_str());
        r.append(",");
        let ghost head = r@;
        let ghost parts = names_views(self.line_names@).map_values(|n: Seq<String>| " "@ + bracketed(n));
        let mut i: usize = 0;
        while i < self.line_names.len()
            invariant
                i <= self.line_names@.len(),
                parts == names_views(self.line_names@).map_values(|n: Seq<String>| " "@ + bracketed(n)),
                r@ == head + concat_all(parts.take(i as int)),
            decreases self.line_names@.len() - i,
        {
            proof {
                lemma_concat_push(parts, i as int);
                reveal_strlit("[");
                reveal_strlit("]");
                reveal_strlit(" [");
                reveal_strlit(" ");
            }
            let names = &self.line_names[i];
            assert(parts[i as int] == " "@ + bracketed(names@));
            assert(" ["@ =~= " "@ + "["@);
            if names.len() == 0 {
                r.append(" []");
                proof {
                    reveal_strlit(" []");
                    assert(ident_texts(names@) =~= Seq::<Seq<char>>::empty());
                    assert(" []"@ =~= " "@ + bracketed(names@));
                }
            } else {
                r.append(concat_serialize_idents(" [", "]", names, " ").as_str());
            }
            assert(r@ =~= head + concat_all(parts.take(i + 1)));
            i = i + 1;
        }
        assert(parts.take(i as int) =~= parts);
        r.append(")");
        r
    }
}

} // verus!
