//! `<track-list>`, subgrid's `<line-name-list>`, and the
//! `grid-template-rows` / `grid-template-columns` value.

use vstd::prelude::*;
use vstd::string::StringExecFns;
use crate::repeat::{bracketed, GenericNameRepeat, GenericTrackRepeat, names_views};
use crate::text::{concat_all, concat_serialize_idents, idents_text, lemma_concat_push};
use crate::track::{CssText, GenericTrackBreadth, GenericTrackSize};

verus! {

/// One value of a `<track-list>`: a `<track-size>` or a `repeat()`.
#[derive(Clone, Debug, PartialEq)]
pub enum GenericTrackListValue<L> {
    /// A `<track-size>`.
    TrackSize(GenericTrackSize<L>),
    /// A `<track-repeat>`.
    TrackRepeat(GenericTrackRepeat<L>),
}

pub type TrackListValue<L> = GenericTrackListValue<L>;

impl<L> TrackListValue<L> {
    /// Whether this is the initial value, `auto`.
    pub open spec fn spec_is_initial(&self) -> bool {
        self is TrackSize && self->TrackSize_0.spec_is_initial()
    }

    /// Whether this is a `repeat()`.
    pub fn is_repeat(&self) -> (r: bool)
        ensures
            r == (self is TrackRepeat),
    {
        matches!(*self, GenericTrackListValue::TrackRepeat(..))
    }

    /// Whether this is the initial value, `auto`.
    pub fn is_initial(&self) -> (r: bool)
        ensures
            r == self.spec_is_initial(),
    {
        matches!(*self, GenericTrackListValue::TrackSize(GenericTrackSize::Breadth(GenericTrackBreadth::Auto)))
    }
}

impl<L> Default for GenericTrackListValue<L> {
    fn default() -> (r: Self)
        ensures
            r.spec_is_initial(),
    {
        GenericTrackListValue::TrackSize(GenericTrackSize::Breadth(GenericTrackBreadth::Auto))
    }
}

impl<L: CssText> CssText for GenericTrackListValue<L> {
    open spec fn css_text(&self) -> Seq<char> {
        match self {
            GenericTrackListValue::TrackSize(s) => s.css_text(),
            GenericTrackListValue::TrackRepeat(r) => r.css_text(),
        }
    }

    fn to_css(&self) -> (r: String) {
        match self {
            GenericTrackListValue::TrackSize(s) => s.to_css(),
            GenericTrackListValue::TrackRepeat(r) => r.to_css(),
        }
    }
}

/// A `<track-list>`.
#[derive(Clone, Debug, PartialEq)]
pub struct GenericTrackList<L> {
    /// The index in `values` of the `<auto-repeat>`; out of bounds when
    /// there is none.
    pub auto_repeat_index: usize,
    /// The `<track-size>` and `repeat()` values.
    pub values: Vec<GenericTrackListValue<L>>,
    /// The `<line-names>` around the values: one before each value and one
    /// after the last, empty where none is written.
    pub line_names: Vec<Vec<String>>,
}

pub type TrackList<L> = GenericTrackList<L>;

impl<L> TrackList<L> {
    /// One more `<line-names>` than values, and an in-bounds
    /// `auto_repeat_index` marks a `repeat()` with an automatic count.
    pub open spec fn wf(&self) -> bool {
        &&& self.line_names@.len() == self.values@.len() + 1
        &&& self.auto_repeat_index < self.values@.len() ==> {
            let v = self.values@[self.auto_repeat_index as int];
            v is TrackRepeat && !(v->TrackRepeat_0.count is Number)
        }
    }

    /// Whether no value is a `repeat()`.
    pub fn is_explicit(&self) -> (r: bool)
        ensures
            r == forall|i: int| 0 <= i < self.values@.len() ==> !(#[trigger] self.values@[i] is TrackRepeat),
    {
        let mut i: usize = 0;
        while i < self.values.len()
            invariant
                i <= self.values@.len(),
                forall|j: int| 0 <= j < i ==> !(#[trigger] self.values@[j] is TrackRepeat),
            decreases self.values@.len() - i,
        {
            if self.values[i].is_repeat() {
                return false;
            }
            i = i + 1;
        }
        true
    }

    /// Whether there is an `<auto-repeat>`.
    pub fn has_auto_repeat(&self) -> (r: bool)
        ensures
            r == (self.auto_repeat_index < self.values@.len()),
    {
        self.auto_repeat_index < self.values.len()
    }
}

impl<L: CssText> TrackList<L> {
    /// Whether a space follows the `i`th value: another value follows, the
    /// next `<line-names>` is not empty, or the next value is the
    /// `<auto-repeat>`.
    pub open spec fn space_after(&self, i: int) -> bool {
        ||| i + 1 < self.values@.len()
        ||| self.line_names@[i + 1]@.len() != 0
        ||| i + 1 == self.auto_repeat_index
    }

    /// The text of the `i`th value with the names before it.
    pub open spec fn piece_text(&self, i: int) -> Seq<char> {
        let names = self.line_names@[i]@;
        idents_text("["@, "]"@, names, " "@) + (if names.len() != 0 {
            " "@
        } else {
            Seq::empty()
        }) + self.values@[i].css_text() + (if self.space_after(i) {
            " "@
        } else {
            Seq::empty()
        })
    }

    /// The texts of all values with the names before each.
    pub open spec fn piece_texts(&self) -> Seq<Seq<char>> {
        Seq::new(self.values@.len(), |i: int| self.piece_text(i))
    }

    /// The canonical text: the values with their names, then the last names.
    /// Empty `<line-names>` are not written.
    pub open spec fn css_text(&self) -> Seq<char> {
        concat_all(self.piece_texts()) + idents_text(
            "["@,
            "]"@,
            self.line_names@[self.values@.len() as int]@,
            " "@,
        )
    }

    /// Writes the canonical text.
    pub fn to_css(&self) -> (r: String)
        requires
            self.wf(),
        ensures
            r@ == self.css_text(),
    {
        let ghost parts = self.piece_texts();
        let mut r = String::new();
        let mut i: usize = 0;
        while i < self.values.len()
            invariant
                self.wf(),
                i <= self.values@.len(),
                parts == self.piece_texts(),
                r@ == concat_all(parts.take(i as int)),
            decreases self.values@.len() - i,
        {
            proof {
                lemma_concat_push(parts, i as int);
            }
            let names = &self.line_names[i];
            r.append(concat_serialize_idents("[", "]", names, " ").as_str());
            if names.len() != 0 {
                r.append(" ");
            }
            r.append(self.values[i].to_css().as_str());
            if i + 1 < self.values.len() || self.line_names[i + 1].len() != 0 || i + 1 == self.auto_repeat_index {
                r.append(" ");
            }
            assert(r@ =~= concat_all(parts.take(i + 1)));
            i = i + 1;
        }
        assert(parts.take(i as int) =~= parts);
        r.append(concat_serialize_idents("[", "]", &self.line_names[i], " ").as_str());
        r
    }
}

/// One value of a `<line-name-list>`.
#[derive(Clone, Debug, PartialEq)]
pub enum GenericLineNameListValue {
    /// `<line-names>`.
    LineNames(Vec<String>),
    /// `<name-repeat>`.
    Repeat(GenericNameRepeat),
}

pub type LineNameListValue = GenericLineNameListValue;

impl CssText for GenericLineNameListValue {
    /// `<line-names>` are written in brackets, `[]` when empty.
    open spec fn css_text(&self) -> Seq<char> {
        match self {
            GenericLineNameListValue::LineNames(n) => bracketed(n@),
            GenericLineNameListValue::Repeat(r) => r.css_text(),
        }
    }

    fn to_css(&self) -> (r: String) {
        match self {
            GenericLineNameListValue::Repeat(r) => r.to_css(),
            GenericLineNameListValue::LineNames(names) => {
                let mut r = "[".to_owned();
                if names.len() != 0 {
                    r.append(concat_serialize_idents("", "", names, " ").as_str());
                } else {
                    assert(crate::text::ident_texts(names@) =~= Seq::<Seq<char>>::empty());
                }
                r.append("]");
                assert(r@ =~= bracketed(names@)) by {
                    reveal_strlit("");
                }
                r
            },
        }
    }
}

/// A subgrid's `<line-name-list>`.
#[derive(Clone, Debug, PartialEq, Default)]
pub struct GenericLineNameList {
    /// How many `<line-names>` the list expands to, not counting those of a
    /// `repeat(auto-fill, ...)`.
    pub expanded_line_names_length: usize,
    /// The values of the list.
    pub line_names: Vec<GenericLineNameListValue>,
}

pub type LineNameList = GenericLineNameList;

impl CssText for GenericLineNameList {
    /// `subgrid`, then each value after a space.
    open spec fn css_text(&self) -> Seq<char> {
        "subgrid"@ + concat_all(self.line_names@.map_values(|v: GenericLineNameListValue| " "@ + v.css_text()))
    }

    fn to_css(&self) -> (r: String) {
        let ghost parts = self.line_names@.map_values(|v: GenericLineNameListValue| " "@ + v.css_text());
        let mut r = "subgrid".to_owned();
        let mut i: usize = 0;
        while i < self.line_names.len()
            invariant
                i <= self.line_names@.len(),
                parts == self.line_names@.map_values(|v: GenericLineNameListValue| " "@ + v.css_text()),
                r@ == "subgrid"@ + concat_all(parts.take(i as int)),
            decreases self.line_names@.len() - i,
        {
            proof {
                lemma_concat_push(parts, i as int);
            }
            r.append(" ");
            r.append(self.line_names[i].to_css().as_str());
            assert(r@ =~= "subgrid"@ + concat_all(parts.take(i + 1)));
            i = i + 1;
        }
        assert(parts.take(i as int) =~= parts);
        r
    }
}

/// A `grid-template-rows` or `grid-template-columns` value.
#[derive(Clone, Debug, PartialEq)]
pub enum GenericGridTemplateComponent<L> {
    /// `none`
    NoneValue,
    /// A `<track-list>`.
    TrackList(Box<GenericTrackList<L>>),
    /// `subgrid <line-name-list>?`
    Subgrid(Box<GenericLineNameList>),
    /// `masonry`
    Masonry,
}

pub type GridTemplateComponent<L> = GenericGridTemplateComponent<L>;

impl<L> GridTemplateComponent<L> {
    /// A track list in it is well formed.
    pub open spec fn wf(&self) -> bool {
        self is TrackList ==> self->TrackList_0.wf()
    }

    /// The number of values of the `<track-list>`; zero for the others.
    pub fn track_list_len(&self) -> (r: usize)
        ensures
            r == match self {
                GenericGridTemplateComponent::TrackList(t) => t.values@.len(),
                _ => 0,
            },
    {
        match self {
            GenericGridTemplateComponent::TrackList(t) => t.values.len(),
            _ => 0,
        }
    }

    /// Whether this is the initial value, `none`.
    pub fn is_initial(&self) -> (r: bool)
        ensures
            r == (self is NoneValue),
    {
        matches!(*self, GenericGridTemplateComponent::NoneValue)
    }
}

impl<L> Default for GenericGridTemplateComponent<L> {
    fn default() -> (r: Self)
        ensures
            r is NoneValue,
    {
        GenericGridTemplateComponent::NoneValue
    }
}

impl<L: CssText> GridTemplateComponent<L> {
    /// The canonical text.
    pub open spec fn css_text(&self) -> Seq<char> {
        match self {
            GenericGridTemplateComponent::NoneValue => "none"@,
            GenericGridTemplateComponent::TrackList(t) => t.css_text(),
            GenericGridTemplateComponent::Subgrid(l) => l.css_text(),
            GenericGridTemplateComponent::Masonry => "masonry"@,
        }
    }

    /// Writes the canonical text.
    pub fn to_css(&self) -> (r: String)
        requires
            self.wf(),
        ensures
            r@ == self.css_text(),
    {
        match self {
            GenericGridTemplateComponent::NoneValue => "none".to_owned(),
            GenericGridTemplateComponent::TrackList(t) => t.to_css(),
            GenericGridTemplateComponent::Subgrid(l) => l.to_css(),
            GenericGridTemplateComponent::Masonry => "masonry".to_owned(),
        }
    }
}

} // verus!
