//! `<track-breadth>` and `<track-size>`: how one track is sized.

use vstd::prelude::*;
use vstd::string::StringExecFns;
use crate::text::joined;

verus! {

/// A value with a canonical CSS text.
pub trait CssText {
    /// The canonical text.
    spec fn css_text(&self) -> Seq<char>;

    /// Writes the canonical text.
    fn to_css(&self) -> (r: String)
        ensures
            r@ == self.css_text(),
    ;
}

/// An authored `<length-percentage>` kept as the text it was written with.
impl CssText for String {
    open spec fn css_text(&self) -> Seq<char> {
        self@
    }

    fn to_css(&self) -> (r: String) {
        self.as_str().to_owned()
    }
}

/// A `<track-breadth>`, generic over the `<length-percentage>` type.
#[derive(Clone, Debug, PartialEq)]
pub enum GenericTrackBreadth<L> {
    /// A `<length-percentage>`.
    Breadth(L),
    /// A flex fraction in `fr` units, kept as the text it was written with
    /// (number and unit).
    Fr(String),
    /// `auto`
    Auto,
    /// `min-content`
    MinContent,
    /// `max-content`
    MaxContent,
}

pub type TrackBreadth<L> = GenericTrackBreadth<L>;

impl<L> TrackBreadth<L> {
    /// Whether this is a `<fixed-breadth>`: a `<length-percentage>` only.
    pub open spec fn spec_is_fixed(&self) -> bool {
        self is Breadth
    }

    /// Whether this is a `<fixed-breadth>`: a `<length-percentage>` only.
    pub fn is_fixed(&self) -> (r: bool)
        ensures
            r == self.spec_is_fixed(),
    {
        matches!(*self, GenericTrackBreadth::Breadth(..))
    }
}

impl<L: CssText> CssText for GenericTrackBreadth<L> {
    open spec fn css_text(&self) -> Seq<char> {
        match self {
            GenericTrackBreadth::Breadth(l) => l.css_text(),
            GenericTrackBreadth::Fr(n) => n@,
            GenericTrackBreadth::Auto => "auto"@,
            GenericTrackBreadth::MinContent => "min-content"@,
            GenericTrackBreadth::MaxContent => "max-content"@,
        }
    }

    fn to_css(&self) -> (r: String) {
        match self {
            GenericTrackBreadth::Breadth(l) => l.to_css(),
            GenericTrackBreadth::Fr(n) => n.as_str().to_owned(),
            GenericTrackBreadth::Auto => "auto".to_owned(),
            GenericTrackBreadth::MinContent => "min-content".to_owned(),
            GenericTrackBreadth::MaxContent => "max-content".to_owned(),
        }
    }
}

/// A `<track-size>`, generic over the `<length-percentage>` type.
#[derive(Clone, Debug, PartialEq)]
pub enum GenericTrackSize<L> {
    /// A `<track-breadth>`.
    Breadth(GenericTrackBreadth<L>),
    /// `minmax(<inflexible-breadth>, <track-breadth>)`.
    Minmax(GenericTrackBreadth<L>, GenericTrackBreadth<L>),
    /// `fit-content(<length-percentage>)`, held as a breadth.
    FitContent(GenericTrackBreadth<L>),
}

pub type TrackSize<L> = GenericTrackSize<L>;

impl<L> TrackSize<L> {
    /// Whether this is the initial value, `auto`.
    pub open spec fn spec_is_initial(&self) -> bool {
        self is Breadth && self->Breadth_0 is Auto
    }

    /// Whether this is a `<fixed-size>`: a fixed breadth, or a `minmax()`
    /// whose first argument is fixed, or whose first argument is inflexible
    /// and second fixed.
    pub open spec fn spec_is_fixed(&self) -> bool {
        match self {
            GenericTrackSize::Breadth(b) => b.spec_is_fixed(),
            GenericTrackSize::Minmax(a, b) => a.spec_is_fixed() || (!(a is Fr) && b.spec_is_fixed()),
            GenericTrackSize::FitContent(_) => false,
        }
    }

    /// The initial value, `auto`.
    pub fn initial_value() -> (r: Self)
        ensures
            r.spec_is_initial(),
    {
        GenericTrackSize::Breadth(GenericTrackBreadth::Auto)
    }

    /// Whether this is the initial value, `auto`.
    pub fn is_initial(&self) -> (r: bool)
        ensures
            r == self.spec_is_initial(),
    {
        matches!(*self, GenericTrackSize::Breadth(GenericTrackBreadth::Auto))
    }

    /// Whether this is a `<fixed-size>`.
    pub fn is_fixed(&self) -> (r: bool)
        ensures
            r == self.spec_is_fixed(),
    {
        match self {
            GenericTrackSize::Breadth(b) => b.is_fixed(),
            GenericTrackSize::Minmax(a, b) => {
                if a.is_fixed() {
                    return true;
                }
                match a {
                    GenericTrackBreadth::Fr(_) => false,
                    _ => b.is_fixed(),
                }
            },
            GenericTrackSize::FitContent(_) => false,
        }
    }
}

impl<L> Default for GenericTrackSize<L> {
    fn default() -> (r: Self)
        ensures
            r.spec_is_initial(),
    {
        Self::initial_value()
    }
}

impl<L: CssText> CssText for GenericTrackSize<L> {
    /// `minmax(auto, <flex>)` is written as the flex value alone.
    open spec fn css_text(&self) -> Seq<char> {
        match self {
            GenericTrackSize::Breadth(b) => b.css_text(),
            GenericTrackSize::Minmax(a, b) => if a is Auto && b is Fr {
                b.css_text()
            } else {
                "minmax("@ + a.css_text() + ", "@ + b.css_text() + ")"@
            },
            GenericTrackSize::FitContent(b) => "fit-content("@ + b.css_text() + ")"@,
        }
    }

    fn to_css(&self) -> (r: String) {
        match self {
            GenericTrackSize::Breadth(b) => b.to_css(),
            GenericTrackSize::Minmax(a, b) => {
                if let GenericTrackBreadth::Auto = a {
                    if let GenericTrackBreadth::Fr(_) = b {
                        return b.to_css();
                    }
                }
                let mut r = "minmax(".to_owned();
                r.append(a.to_css().as_str());
                r.append(", ");
                r.append(b.to_css().as_str());
                r.append(")");
                assert(r@ =~= self.css_text());
                r
            },
            GenericTrackSize::FitContent(b) => {
                let mut r = "fit-content(".to_owned();
                r.append(b.to_css().as_str());
                r.append(")");
                assert(r@ =~= self.css_text());
                r
            },
        }
    }
}

/// The texts of a sequence of values.
pub open spec fn texts_of<T: CssText>(v: Seq<T>) -> Seq<Seq<char>> {
    v.map_values(|t: T| t.css_text())
}

/// Writes values joined by single spaces.
pub fn serialize_space_separated<T: CssText>(v: &Vec<T>) -> (r: String)
    ensures
        r@ == joined(texts_of(v@), " "@),
{
    let ghost texts = texts_of(v@);
    let mut r = String::new();
    let mut i: usize = 0;
    while i < v.len()
        invariant
            i <= v.len(),
            texts == texts_of(v@),
            r@ == joined(texts.take(i as int), " "@),
        decreases v.len() - i,
    {
        proof {
            crate::text::lemma_joined_push(texts, " "@, i as int);
        }
        if i > 0 {
            r.append(" ");
        }
        r.append(v[i].to_css().as_str());
        assert(r@ =~= joined(texts.take(i + 1), " "@));
        i = i + 1;
    }
    assert(texts.take(i as int) =~= texts);
    r
}

/// `<track-size>+` for `grid-auto-rows` and `grid-auto-columns`; empty
/// stands for `auto`.
#[derive(Clone, Debug, PartialEq, Default)]
pub struct GenericImplicitGridTracks<T>(pub Vec<T>);

pub type ImplicitGridTracks<T> = GenericImplicitGridTracks<T>;

impl<T> ImplicitGridTracks<T> {
    /// Whether this is the initial value, `auto`.
    pub fn is_initial(&self) -> (r: bool)
        ensures
            r == (self.0@.len() == 0),
    {
        self.0.len() == 0
    }
}

impl<T: CssText> CssText for GenericImplicitGridTracks<T> {
    open spec fn css_text(&self) -> Seq<char> {
        if self.0@.len() == 0 {
            "auto"@
        } else {
            joined(texts_of(self.0@), " "@)
        }
    }

    fn to_css(&self) -> (r: String) {
        if self.0.len() == 0 {
            "auto".to_owned()
        } else {
            serialize_space_separated(&self.0)
        }
    }
}

} // verus!
