//! Reading `<track-size>`, `repeat()`, `<track-list>`, subgrid's
//! `<line-name-list>` and whole `grid-template-*` values from text.
//!
//! A `<length-percentage>` is taken as written: a non-negative dimension in
//! a unit other than `fr`, a non-negative percentage, or the number `0`.

use vstd::prelude::*;
use crate::grid_line::is_line_name;
use crate::repeat::{parse_count, GenericNameRepeat, GenericTrackRepeat, RepeatCount};
use crate::tokens::{components_of, component_views, keyword_matches, matches_keyword, tokenize, Component, ComponentView, ParseError};
use crate::track::{GenericTrackBreadth, GenericTrackSize};
use crate::track_list::{GenericGridTemplateComponent, GenericLineNameList, GenericLineNameListValue, GenericTrackList, GenericTrackListValue};

verus! {

/// A `<track-breadth>` in mathematical terms.
pub enum BreadthV {
    Breadth(Seq<char>),
    Fr(Seq<char>),
    Auto,
    MinContent,
    MaxContent,
}

/// A `<track-size>` in mathematical terms.
pub enum SizeV {
    Breadth(BreadthV),
    Minmax(BreadthV, BreadthV),
    FitContent(BreadthV),
}

/// A `repeat()` of tracks in mathematical terms.
pub struct RepeatV {
    pub count: RepeatCount,
    pub names: Seq<Seq<Seq<char>>>,
    pub sizes: Seq<SizeV>,
}

/// A `<track-list>` value in mathematical terms.
pub enum ValueV {
    Size(SizeV),
    Repeat(RepeatV),
}

/// A `<track-list>` in mathematical terms.
pub struct ListV {
    pub auto_repeat_index: int,
    pub values: Seq<ValueV>,
    pub names: Seq<Seq<Seq<char>>>,
}

/// A `<name-repeat>` in mathematical terms.
pub struct NameRepeatV {
    pub count: RepeatCount,
    pub names: Seq<Seq<Seq<char>>>,
}

/// A `<line-name-list>` value in mathematical terms.
pub enum NamesValueV {
    Names(Seq<Seq<char>>),
    Repeat(NameRepeatV),
}

/// A `<line-name-list>` in mathematical terms.
pub struct NameListV {
    pub expanded: int,
    pub values: Seq<NamesValueV>,
}

/// A `grid-template-*` value in mathematical terms.
pub enum TemplateV {
    NoneValue,
    List(ListV),
    Subgrid(NameListV),
    Masonry,
}

/// A `<track-breadth>` of authored lengths, in mathematical terms.
pub open spec fn breadth_view(b: GenericTrackBreadth<String>) -> BreadthV {
    match b {
        GenericTrackBreadth::Breadth(l) => BreadthV::Breadth(l@),
        GenericTrackBreadth::Fr(f) => BreadthV::Fr(f@),
        GenericTrackBreadth::Auto => BreadthV::Auto,
        GenericTrackBreadth::MinContent => BreadthV::MinContent,
        GenericTrackBreadth::MaxContent => BreadthV::MaxContent,
    }
}

/// A `<track-size>` of authored lengths, in mathematical terms.
pub open spec fn size_view(s: GenericTrackSize<String>) -> SizeV {
    match s {
        GenericTrackSize::Breadth(b) => SizeV::Breadth(breadth_view(b)),
        GenericTrackSize::Minmax(a, b) => SizeV::Minmax(breadth_view(a), breadth_view(b)),
        GenericTrackSize::FitContent(b) => SizeV::FitContent(breadth_view(b)),
    }
}

/// A `<line-names>` group, in mathematical terms.
pub open spec fn names_view(n: Vec<String>) -> Seq<Seq<char>> {
    n@.map_values(|s: String| s@)
}

/// A sequence of `<line-names>` groups, in mathematical terms.
pub open spec fn names_list_view(v: Vec<Vec<String>>) -> Seq<Seq<Seq<char>>> {
    v@.map_values(|n: Vec<String>| names_view(n))
}

/// A sequence of track sizes, in mathematical terms.
pub open spec fn sizes_view(v: Vec<GenericTrackSize<String>>) -> Seq<SizeV> {
    v@.map_values(|s: GenericTrackSize<String>| size_view(s))
}

/// A track `repeat()`, in mathematical terms.
pub open spec fn repeat_view(r: GenericTrackRepeat<String>) -> RepeatV {
    RepeatV { count: r.count, names: names_list_view(r.line_names), sizes: sizes_view(r.track_sizes) }
}

/// A track-list value, in mathematical terms.
pub open spec fn value_view(v: GenericTrackListValue<String>) -> ValueV {
    match v {
        GenericTrackListValue::TrackSize(s) => ValueV::Size(size_view(s)),
        GenericTrackListValue::TrackRepeat(r) => ValueV::Repeat(repeat_view(r)),
    }
}

/// A sequence of track-list values, in mathematical terms.
pub open spec fn values_view(v: Vec<GenericTrackListValue<String>>) -> Seq<ValueV> {
    v@.map_values(|x: GenericTrackListValue<String>| value_view(x))
}

/// A `<track-list>`, in mathematical terms.
pub open spec fn list_view(l: GenericTrackList<String>) -> ListV {
    ListV {
        auto_repeat_index: l.auto_repeat_index as int,
        values: values_view(l.values),
        names: names_list_view(l.line_names),
    }
}

/// A `<name-repeat>`, in mathematical terms.
pub open spec fn name_repeat_view(r: GenericNameRepeat) -> NameRepeatV {
    NameRepeatV { count: r.count, names: names_list_view(r.line_names) }
}

/// A `<line-name-list>` value, in mathematical terms.
pub open spec fn names_value_view(v: GenericLineNameListValue) -> NamesValueV {
    match v {
        GenericLineNameListValue::LineNames(n) => NamesValueV::Names(names_view(n)),
        GenericLineNameListValue::Repeat(r) => NamesValueV::Repeat(name_repeat_view(r)),
    }
}

/// A sequence of `<line-name-list>` values, in mathematical terms.
pub open spec fn names_values_view(v: Vec<GenericLineNameListValue>) -> Seq<NamesValueV> {
    v@.map_values(|x: GenericLineNameListValue| names_value_view(x))
}

/// A `<line-name-list>`, in mathematical terms.
pub open spec fn name_list_view(l: GenericLineNameList) -> NameListV {
    NameListV { expanded: l.expanded_line_names_length as int, values: names_values_view(l.line_names) }
}

/// A `grid-template-*` value, in mathematical terms.
pub open spec fn template_view(t: GenericGridTemplateComponent<String>) -> TemplateV {
    match t {
        GenericGridTemplateComponent::NoneValue => TemplateV::NoneValue,
        GenericGridTemplateComponent::TrackList(l) => TemplateV::List(list_view(*l)),
        GenericGridTemplateComponent::Subgrid(l) => TemplateV::Subgrid(name_list_view(*l)),
        GenericGridTemplateComponent::Masonry => TemplateV::Masonry,
    }
}

/// The source text of a block's contents without its closing character.
pub open spec fn block_body(text: Seq<char>, closer: char) -> Seq<char> {
    if text.len() > 0 && text.last() == closer {
        text.drop_last()
    } else {
        text
    }
}

/// The component values inside a block.
pub open spec fn inner(text: Seq<char>, closer: char) -> Seq<ComponentView> {
    components_of(block_body(text, closer))
}

/// The component values inside a block.
pub fn block_components(text: &String, closer: char) -> (r: Vec<Component>)
    ensures
        component_views(r@) == inner(text@, closer),
{
    let n = text.unicode_len();
    if n > 0 && text.get_char(n - 1) == closer {
        let body = text.substring_char(0, n - 1);
        assert(body@ =~= text@.drop_last());
        tokenize(body)
    } else {
        tokenize(text.as_str())
    }
}

/// Whether a canonical number text is negative.
pub open spec fn is_negative(t: Seq<char>) -> bool {
    t.len() > 0 && t[0] == '-'
}

/// Whether a canonical number text is negative.
fn negative(t: &String) -> (r: bool)
    ensures
        r == is_negative(t@),
{
    t.unicode_len() > 0 && t.get_char(0) == '-'
}

/// The `<track-breadth>` that one component value is, if any.
pub open spec fn breadth_of(c: ComponentView) -> Option<BreadthV> {
    match c {
        ComponentView::Dimension(t, u) => if is_negative(t) {
            None
        } else if matches_keyword(u, "fr"@) {
            Some(BreadthV::Fr(t))
        } else {
            Some(BreadthV::Breadth(t))
        },
        ComponentView::Percentage(t) => if is_negative(t) {
            None
        } else {
            Some(BreadthV::Breadth(t))
        },
        ComponentView::Number(Some(v)) => if v == 0 {
            Some(BreadthV::Breadth("0"@))
        } else {
            None
        },
        ComponentView::Ident(s) => if matches_keyword(s, "auto"@) {
            Some(BreadthV::Auto)
        } else if matches_keyword(s, "min-content"@) {
            Some(BreadthV::MinContent)
        } else if matches_keyword(s, "max-content"@) {
            Some(BreadthV::MaxContent)
        } else {
            None
        },
        _ => None,
    }
}

/// A breadth read, in mathematical terms.
pub open spec fn opt_breadth_view(r: Option<GenericTrackBreadth<String>>) -> Option<BreadthV> {
    match r {
        Some(b) => Some(breadth_view(b)),
        None => None,
    }
}

/// Reads a `<track-breadth>` from one component value.
pub fn breadth_from(c: &Component) -> (r: Option<GenericTrackBreadth<String>>)
    ensures
        opt_breadth_view(r) == breadth_of(c@),
{
    match c {
        Component::Dimension(t, u) => {
            if negative(t) {
                None
            } else if keyword_matches(u.as_str(), "fr") {
                Some(GenericTrackBreadth::Fr(t.clone()))
            } else {
                Some(GenericTrackBreadth::Breadth(t.clone()))
            }
        },
        Component::Percentage(t) => {
            if negative(t) {
                None
            } else {
                Some(GenericTrackBreadth::Breadth(t.clone()))
            }
        },
        Component::Number(Some(v)) => {
            if *v == 0 {
                Some(GenericTrackBreadth::Breadth("0".to_owned()))
            } else {
                None
            }
        },
        Component::Ident(s) => {
            if keyword_matches(s.as_str(), "auto") {
                Some(GenericTrackBreadth::Auto)
            } else if keyword_matches(s.as_str(), "min-content") {
                Some(GenericTrackBreadth::MinContent)
            } else if keyword_matches(s.as_str(), "max-content") {
                Some(GenericTrackBreadth::MaxContent)
            } else {
                None
            }
        },
        _ => None,
    }
}

/// The `<track-size>` that one component value is, if any: a breadth,
/// `minmax(<inflexible-breadth>, <track-breadth>)`, or
/// `fit-content(<length-percentage>)`.
pub open spec fn size_of(c: ComponentView) -> Option<SizeV> {
    match breadth_of(c) {
        Some(b) => Some(SizeV::Breadth(b)),
        None => match c {
            ComponentView::Function(n, body) => {
                let ts = inner(body, ')');
                if matches_keyword(n, "minmax"@) {
                    if ts.len() == 3 && ts[1] is Comma && breadth_of(ts[0]) is Some && !(breadth_of(ts[0])->0 is Fr)
                        && breadth_of(ts[2]) is Some {
                        Some(SizeV::Minmax(breadth_of(ts[0])->0, breadth_of(ts[2])->0))
                    } else {
                        None
                    }
                } else if matches_keyword(n, "fit-content"@) {
                    if ts.len() == 1 && breadth_of(ts[0]) is Some && breadth_of(ts[0])->0 is Breadth {
                        Some(SizeV::FitContent(breadth_of(ts[0])->0))
                    } else {
                        None
                    }
                } else {
                    None
                }
            },
            _ => None,
        },
    }
}

/// A track size read, in mathematical terms.
pub open spec fn opt_size_view(r: Option<GenericTrackSize<String>>) -> Option<SizeV> {
    match r {
        Some(s) => Some(size_view(s)),
        None => None,
    }
}

/// Reads a `<track-size>` from one component value.
pub fn size_from(c: &Component) -> (r: Option<GenericTrackSize<String>>)
    ensures
        opt_size_view(r) == size_of(c@),
{
    if let Some(b) = breadth_from(c) {
        return Some(GenericTrackSize::Breadth(b));
    }
    match c {
        Component::Function(n, body) => {
            let ts = block_components(body, ')');
            let ghost tv = component_views(ts@);
            if keyword_matches(n.as_str(), "minmax") {
                if ts.len() == 3 {
                    assert(tv[1] == ts@[1]@ && tv[0] == ts@[0]@ && tv[2] == ts@[2]@);
                    if let Component::Comma = &ts[1] {
                        match (breadth_from(&ts[0]), breadth_from(&ts[2])) {
                            (Some(a), Some(b)) => {
                                if let GenericTrackBreadth::Fr(_) = &a {
                                    None
                                } else {
                                    Some(GenericTrackSize::Minmax(a, b))
                                }
                            },
                            _ => None,
                        }
                    } else {
                        None
                    }
                } else {
                    None
                }
            } else if keyword_matches(n.as_str(), "fit-content") {
                if ts.len() == 1 {
                    assert(tv[0] == ts@[0]@);
                    match breadth_from(&ts[0]) {
                        Some(GenericTrackBreadth::Breadth(l)) => Some(GenericTrackSize::FitContent(GenericTrackBreadth::Breadth(l))),
                        _ => None,
                    }
                } else {
                    None
                }
            } else {
                None
            }
        },
        _ => None,
    }
}

/// A name allowed in `<line-names>`: a line name other than `span`.
pub open spec fn is_names_member(s: Seq<char>) -> bool {
    is_line_name(s) && !matches_keyword(s, "span"@)
}

/// The `<line-names>` at `pos`, if a `[` block of allowed names stands there.
pub open spec fn line_names_at(ts: Seq<ComponentView>, pos: int) -> Option<Seq<Seq<char>>> {
    if 0 <= pos < ts.len() && ts[pos] is Brackets {
        let inn = inner(ts[pos]->Brackets_0, ']');
        if forall|i: int| 0 <= i < inn.len() ==> #[trigger] inn[i] is Ident && is_names_member(inn[i]->Ident_0) {
            Some(inn.map_values(|c: ComponentView| c->Ident_0))
        } else {
            None
        }
    } else {
        None
    }
}

/// A `<line-names>` read, in mathematical terms.
pub open spec fn opt_names_view(r: Option<Vec<String>>) -> Option<Seq<Seq<char>>> {
    match r {
        Some(n) => Some(names_view(n)),
        None => None,
    }
}

/// Reads `<line-names>` at `pos`.
pub fn names_at(ts: &Vec<Component>, pos: usize) -> (r: Option<Vec<String>>)
    ensures
        opt_names_view(r) == line_names_at(component_views(ts@), pos as int),
        r is Some ==> pos < ts@.len(),
{
    if pos >= ts.len() {
        return None;
    }
    assert(component_views(ts@)[pos as int] == ts@[pos as int]@);
    match &ts[pos] {
        Component::Brackets(body) => {
            let inn = block_components(body, ']');
            let ghost iv = component_views(inn@);
            let mut out: Vec<String> = Vec::new();
            let mut i: usize = 0;
            while i < inn.len()
                invariant
                    i <= inn@.len(),
                    iv == component_views(inn@),
                    iv == inner(body@, ']'),
                    pos < ts@.len(),
                    component_views(ts@)[pos as int] == ComponentView::Brackets(body@),
                    forall|j: int| 0 <= j < i ==> #[trigger] iv[j] is Ident && is_names_member(iv[j]->Ident_0),
                    names_view(out) =~= iv.take(i as int).map_values(|c: ComponentView| c->Ident_0),
                decreases inn@.len() - i,
            {
                assert(iv[i as int] == inn@[i as int]@);
                match &inn[i] {
                    Component::Ident(s) => {
                        let s_str = s.as_str();
                        if !(line_name_ok(s_str)) {
                            assert(!(iv[i as int] is Ident && is_names_member(iv[i as int]->Ident_0)));
                            return None;
                        }
                        let ghost before = out@;
                        let name = s.clone();
                        out.push(name);
                        assert(out@ == before.push(name));
                        assert(names_view(out) =~= before.map_values(|x: String| x@).push(s@));
                    },
                    _ => {
                        assert(!(iv[i as int] is Ident));
                        return None;
                    },
                }
                assert(names_view(out) =~= iv.take(i + 1).map_values(|c: ComponentView| c->Ident_0));
                i = i + 1;
            }
            assert(iv.take(i as int) =~= iv);
            Some(out)
        },
        _ => None,
    }
}

/// Whether an identifier may stand in `<line-names>`.
fn line_name_ok(s: &str) -> (r: bool)
    ensures
        r == is_names_member(s@),
{
    crate::grid_line::line_name_allowed(s) && !keyword_matches(s, "span")
}

/// The `<line-names>` at `pos`, or none, and the position after them.
pub open spec fn names_step(ts: Seq<ComponentView>, pos: int) -> (Seq<Seq<char>>, int) {
    match line_names_at(ts, pos) {
        Some(n) => (n, pos + 1),
        None => (Seq::empty(), pos),
    }
}

/// The `[<line-names>? <track-size>]+ <line-names>?` of a `repeat()` from
/// `pos` to the end: its name groups and sizes.
pub open spec fn repeat_items(ts: Seq<ComponentView>, pos: int) -> Option<(Seq<Seq<Seq<char>>>, Seq<SizeV>)>
    decreases ts.len() - pos,
{
    if pos < 0 || pos > ts.len() {
        None
    } else {
        let (nm, p) = names_step(ts, pos);
        if p < ts.len() && size_of(ts[p]) is Some {
            let s = size_of(ts[p])->0;
            match repeat_items(ts, p + 1) {
                Some((ns, ss)) => Some((seq![nm] + ns, seq![s] + ss)),
                None => None,
            }
        } else if p == ts.len() {
            Some((seq![nm], Seq::empty()))
        } else {
            None
        }
    }
}

/// The name groups and sizes of a `repeat()` read, in mathematical terms.
pub open spec fn opt_items_view(r: Option<(Vec<Vec<String>>, Vec<GenericTrackSize<String>>)>) -> Option<(Seq<Seq<Seq<char>>>, Seq<SizeV>)> {
    match r {
        Some((ns, ss)) => Some((names_list_view(ns), sizes_view(ss))),
        None => None,
    }
}

/// Reads `<line-names>` at `pos` if they stand there.
fn names_or_empty(ts: &Vec<Component>, pos: usize) -> (r: (Vec<String>, usize))
    requires
        pos <= ts@.len(),
    ensures
        (names_view(r.0), r.1 as int) == names_step(component_views(ts@), pos as int),
        r.1 <= ts@.len(),
{
    let len = ts.len();
    let r = names_at(ts, pos);
    match r {
        Some(n) => {
            assert(pos < ts@.len());
            (n, pos + 1)
        },
        None => {
            let v: Vec<String> = Vec::new();
            assert(names_view(v) =~= Seq::<Seq<char>>::empty());
            (v, pos)
        },
    }
}

/// Reads the name groups and sizes of a `repeat()` from `pos` to the end.
fn repeat_items_from(ts: &Vec<Component>, pos: usize) -> (r: Option<(Vec<Vec<String>>, Vec<GenericTrackSize<String>>)>)
    requires
        pos <= ts@.len(),
    ensures
        opt_items_view(r) == repeat_items(component_views(ts@), pos as int),
        match r {
            Some((ns, ss)) => ns@.len() == ss@.len() + 1,
            None => true,
        },
    decreases ts@.len() - pos,
{
    let ghost tv = component_views(ts@);
    let (nm, p) = names_or_empty(ts, pos);
    if p < ts.len() {
        assert(tv[p as int] == ts@[p as int]@);
        match size_from(&ts[p]) {
            Some(s) => {
                match repeat_items_from(ts, p + 1) {
                    Some((ns, ss)) => {
                        let ghost ns0 = ns@;
                        let ghost ss0 = ss@;
                        let mut ns = ns;
                        let mut ss = ss;
                        let ghost nmv = names_view(nm);
                        let ghost sv = size_view(s);
                        ns.insert(0, nm);
                        ss.insert(0, s);
                        assert(names_list_view(ns) =~= seq![nmv] + ns0.map_values(|n: Vec<String>| names_view(n)));
                        assert(sizes_view(ss) =~= seq![sv] + ss0.map_values(|x: GenericTrackSize<String>| size_view(x)));
                        Some((ns, ss))
                    },
                    None => None,
                }
            },
            None => None,
        }
    } else {
        let mut ns: Vec<Vec<String>> = Vec::new();
        let ghost nmv = names_view(nm);
        ns.push(nm);
        let ss: Vec<GenericTrackSize<String>> = Vec::new();
        assert(names_list_view(ns) =~= seq![nmv]);
        assert(sizes_view(ss) =~= Seq::<SizeV>::empty());
        Some((ns, ss))
    }
}

/// The `repeat()` of tracks that one component value is, if any:
/// `repeat(<count>, [<line-names>? <track-size>]+ <line-names>?)`.
pub open spec fn repeat_of(c: ComponentView) -> Option<RepeatV> {
    match c {
        ComponentView::Function(n, body) => if matches_keyword(n, "repeat"@) {
            let ts = inner(body, ')');
            match parse_count(ts, 0) {
                Ok((count, _)) => if ts.len() >= 2 && ts[1] is Comma {
                    match repeat_items(ts, 2) {
                        Some((ns, ss)) => if ss.len() >= 1 {
                            Some(RepeatV { count, names: ns, sizes: ss })
                        } else {
                            None
                        },
                        None => None,
                    }
                } else {
                    None
                },
                Err(_) => None,
            }
        } else {
            None
        },
        _ => None,
    }
}

/// A track `repeat()` read, in mathematical terms.
pub open spec fn opt_repeat_view(r: Option<GenericTrackRepeat<String>>) -> Option<RepeatV> {
    match r {
        Some(x) => Some(repeat_view(x)),
        None => None,
    }
}

/// Reads a `repeat()` of tracks from one component value.
pub fn repeat_from(c: &Component) -> (r: Option<GenericTrackRepeat<String>>)
    ensures
        opt_repeat_view(r) == repeat_of(c@),
        r is Some ==> r->0.wf(),
{
    match c {
        Component::Function(n, body) => {
            if !keyword_matches(n.as_str(), "repeat") {
                return None;
            }
            let ts = block_components(body, ')');
            let ghost tv = component_views(ts@);
            match RepeatCount::parse_tokens(&ts, 0) {
                Ok((count, _)) => {
                    if ts.len() < 2 {
                        return None;
                    }
                    assert(tv[1] == ts@[1]@);
                    match &ts[1] {
                        Component::Comma => {},
                        _ => {
                            return None;
                        },
                    }
                    match repeat_items_from(&ts, 2) {
                        Some((ns, ss)) => {
                            if ss.len() >= 1 {
                                Some(GenericTrackRepeat { count, line_names: ns, track_sizes: ss })
                            } else {
                                None
                            }
                        },
                        None => None,
                    }
                },
                Err(_) => None,
            }
        },
        _ => None,
    }
}

/// One more name group and value in front of a parsed rest.
pub open spec fn prepend_item(
    nm: Seq<Seq<char>>,
    v: ValueV,
    rest: Result<(Seq<Seq<Seq<char>>>, Seq<ValueV>, Option<int>), int>,
) -> Result<(Seq<Seq<Seq<char>>>, Seq<ValueV>, Option<int>), int> {
    match rest {
        Ok((ns, vs, a)) => Ok((seq![nm] + ns, seq![v] + vs, a)),
        Err(e) => Err(e),
    }
}

/// The `[<line-names>? [<track-size> | <track-repeat>]]+ <line-names>?` of
/// a `<track-list>` from `pos` to the end, `k` values having been read:
/// its name groups, values and the index of its `repeat()` with an
/// automatic count, of which there is at most one; or the position of the
/// grammar violation.
pub open spec fn list_items(ts: Seq<ComponentView>, pos: int, k: int, auto: Option<int>) -> Result<
    (Seq<Seq<Seq<char>>>, Seq<ValueV>, Option<int>),
    int,
>
    decreases ts.len() - pos,
{
    if pos < 0 || pos > ts.len() {
        Err(pos)
    } else {
        let (nm, p) = names_step(ts, pos);
        if p < ts.len() && size_of(ts[p]) is Some {
            prepend_item(nm, ValueV::Size(size_of(ts[p])->0), list_items(ts, p + 1, k + 1, auto))
        } else if p < ts.len() && repeat_of(ts[p]) is Some {
            let r = repeat_of(ts[p])->0;
            if r.count is Number {
                prepend_item(nm, ValueV::Repeat(r), list_items(ts, p + 1, k + 1, auto))
            } else if auto is Some {
                Err(p)
            } else {
                prepend_item(nm, ValueV::Repeat(r), list_items(ts, p + 1, k + 1, Some(k)))
            }
        } else if k > 0 && p == ts.len() {
            Ok((seq![nm], Seq::empty(), auto))
        } else {
            Err(p)
        }
    }
}

/// The `<track-list>` that a sequence of component values is, or the
/// position of the grammar violation; with no `<auto-repeat>` its index is
/// `usize::MAX`.
pub open spec fn list_of(ts: Seq<ComponentView>) -> Result<ListV, int> {
    match list_items(ts, 0, 0, None) {
        Ok((ns, vs, a)) => Ok(ListV {
            auto_repeat_index: match a {
                Some(i) => i,
                None => usize::MAX as int,
            },
            values: vs,
            names: ns,
        }),
        Err(e) => Err(e),
    }
}

/// The name groups, values and `<auto-repeat>` index read, in mathematical terms.
pub open spec fn opt_list_items_view(
    r: Result<(Vec<Vec<String>>, Vec<GenericTrackListValue<String>>, Option<usize>), ParseError>,
) -> Result<(Seq<Seq<Seq<char>>>, Seq<ValueV>, Option<int>), int> {
    match r {
        Ok((ns, vs, a)) => Ok((
            names_list_view(ns),
            values_view(vs),
            match a {
                Some(i) => Some(i as int),
                None => None,
            },
        )),
        Err(e) => Err(e.position as int),
    }
}

/// Whether `r` is shaped as a list read after `k` values with `auto` as
/// the `<auto-repeat>` so far: one more name group than values, and the
/// `<auto-repeat>` it reports is `auto` or one of its own values.
pub open spec fn items_shaped(
    r: Result<(Vec<Vec<String>>, Vec<GenericTrackListValue<String>>, Option<usize>), ParseError>,
    k: int,
    auto: Option<usize>,
) -> bool {
    match r {
        Ok((ns, vs, a)) => {
            &&& ns@.len() == vs@.len() + 1
            &&& a is Some ==> a == auto || (k <= a->0 < k + vs@.len() && {
                let v = vs@[a->0 - k];
                v is TrackRepeat && !(v->TrackRepeat_0.count is Number)
            })
        },
        Err(_) => true,
    }
}

/// A copy of an optional index.
fn opt_index(a: Option<usize>) -> (r: Option<usize>)
    ensures
        r == a,
{
    match a {
        Some(i) => Some(i),
        None => None,
    }
}

/// Reads the rest of a `<track-list>` from `pos`, `k` values having been read.
fn list_items_from(ts: &Vec<Component>, pos: usize, k: usize, auto: Option<usize>) -> (r: Result<
    (Vec<Vec<String>>, Vec<GenericTrackListValue<String>>, Option<usize>),
    ParseError,
>)
    requires
        pos <= ts@.len(),
        k <= pos,
    ensures
        opt_list_items_view(r) == list_items(
            component_views(ts@),
            pos as int,
            k as int,
            match auto {
                Some(i) => Some(i as int),
                None => None,
            },
        ),
        items_shaped(r, k as int, auto),
    decreases ts@.len() - pos,
{
    let ghost tv = component_views(ts@);
    let len = ts.len();
    let (nm, p) = names_or_empty(ts, pos);
    if p < ts.len() {
        assert(tv[p as int] == ts@[p as int]@);
        let ghost nmv = names_view(nm);
        let (value, next_auto) = match size_from(&ts[p]) {
            Some(s) => (GenericTrackListValue::TrackSize(s), opt_index(auto)),
            None => match repeat_from(&ts[p]) {
                Some(rep) => {
                    if let RepeatCount::Number(_) = rep.count {
                        (GenericTrackListValue::TrackRepeat(rep), opt_index(auto))
                    } else {
                        if auto.is_some() {
                            return Err(ParseError { position: p });
                        }
                        (GenericTrackListValue::TrackRepeat(rep), Some(k))
                    }
                },
                None => {
                    return Err(ParseError { position: p });
                },
            },
        };
        let ghost vv = value_view(value);
        match list_items_from(ts, p + 1, k + 1, next_auto) {
            Ok((ns, vs, a)) => {
                let ghost ns0 = ns@;
                let ghost vs0 = vs@;
                let mut ns = ns;
                let mut vs = vs;
                ns.insert(0, nm);
                vs.insert(0, value);
                assert(names_list_view(ns) =~= seq![nmv] + ns0.map_values(|n: Vec<String>| names_view(n)));
                assert(values_view(vs) =~= seq![vv] + vs0.map_values(|x: GenericTrackListValue<String>| value_view(x)));
                assert(vs@[0] == value);
                assert forall|j: int| 0 <= j < vs0.len() implies vs@[j + 1] == vs0[j] by {}
                Ok((ns, vs, a))
            },
            Err(e) => Err(e),
        }
    } else {
        if k > 0 {
            let mut ns: Vec<Vec<String>> = Vec::new();
            let ghost nmv = names_view(nm);
            ns.push(nm);
            let vs: Vec<GenericTrackListValue<String>> = Vec::new();
            assert(names_list_view(ns) =~= seq![nmv]);
            assert(values_view(vs) =~= Seq::<ValueV>::empty());
            Ok((ns, vs, opt_index(auto)))
        } else {
            Err(ParseError { position: p })
        }
    }
}

/// A `<track-list>` parse result, in mathematical terms.
pub open spec fn list_result(r: Result<GenericTrackList<String>, ParseError>) -> Result<ListV, int> {
    match r {
        Ok(l) => Ok(list_view(l)),
        Err(e) => Err(e.position as int),
    }
}

/// Reads a `<track-list>` from all of `ts`.
fn list_from(ts: &Vec<Component>) -> (r: Result<GenericTrackList<String>, ParseError>)
    ensures
        list_result(r) == list_of(component_views(ts@)),
        r is Ok ==> r->Ok_0.wf(),
{
    match list_items_from(ts, 0, 0, None) {
        Ok((ns, vs, a)) => {
            let n = vs.len();
            let auto_repeat_index = match a {
                Some(i) => i,
                None => usize::MAX,
            };
            assert(n == vs@.len());
            Ok(GenericTrackList { auto_repeat_index, values: vs, line_names: ns })
        },
        Err(e) => Err(e),
    }
}

impl GenericTrackList<String> {
    /// Reads a text that holds a `<track-list>` and nothing else. A list
    /// read is always well formed.
    pub fn parse(text: &str) -> (r: Result<GenericTrackList<String>, ParseError>)
        ensures
            list_result(r) == list_of(components_of(text@)),
            r is Ok ==> r->Ok_0.wf(),
    {
        list_from(&tokenize(text))
    }
}

/// Whether `<line-names>` stand at every position from `from` on.
pub open spec fn all_names_from(ts: Seq<ComponentView>, from: int) -> bool {
    forall|i: int| from <= i < ts.len() ==> #[trigger] line_names_at(ts, i) is Some
}

/// The `<name-repeat>` that one component value is, if any:
/// `repeat(<integer> | auto-fill, <line-names>+)`; `auto-fit` is refused.
pub open spec fn name_repeat_of(c: ComponentView) -> Option<NameRepeatV> {
    match c {
        ComponentView::Function(n, body) => if matches_keyword(n, "repeat"@) {
            let ts = inner(body, ')');
            match parse_count(ts, 0) {
                Ok((count, _)) => if !(count is AutoFit) && ts.len() >= 3 && ts[1] is Comma && all_names_from(ts, 2) {
                    Some(NameRepeatV {
                        count,
                        names: Seq::new((ts.len() - 2) as nat, |i: int| line_names_at(ts, i + 2)->0),
                    })
                } else {
                    None
                },
                Err(_) => None,
            }
        } else {
            None
        },
        _ => None,
    }
}

/// A `<name-repeat>` read, in mathematical terms.
pub open spec fn opt_name_repeat_view(r: Option<GenericNameRepeat>) -> Option<NameRepeatV> {
    match r {
        Some(x) => Some(name_repeat_view(x)),
        None => None,
    }
}

/// Reads a `<name-repeat>` from one component value.
pub fn name_repeat_from(c: &Component) -> (r: Option<GenericNameRepeat>)
    ensures
        opt_name_repeat_view(r) == name_repeat_of(c@),
        r is Some ==> r->0.wf(),
        r is Some && r->0.count is Number ==> r->0.count->Number_0 >= 1,
{
    match c {
        Component::Function(n, body) => {
            if !keyword_matches(n.as_str(), "repeat") {
                return None;
            }
            let ts = block_components(body, ')');
            let ghost tv = component_views(ts@);
            match RepeatCount::parse_tokens(&ts, 0) {
                Ok((count, _)) => {
                    if let RepeatCount::AutoFit = count {
                        return None;
                    }
                    if ts.len() < 3 {
                        return None;
                    }
                    assert(tv[1] == ts@[1]@);
                    match &ts[1] {
                        Component::Comma => {},
                        _ => {
                            return None;
                        },
                    }
                    let mut names: Vec<Vec<String>> = Vec::new();
                    let mut i: usize = 2;
                    while i < ts.len()
                        invariant
                            2 <= i <= ts@.len(),
                            tv == component_views(ts@),
                            tv == inner(body@, ')'),
                            c@ == ComponentView::Function(n@, body@),
                            matches_keyword(n@, "repeat"@),
                            parse_count(tv, 0) is Ok,
                            parse_count(tv, 0)->Ok_0.0 == count,
                            !(count is AutoFit),
                            tv[1] is Comma,
                            forall|j: int| 2 <= j < i ==> #[trigger] line_names_at(tv, j) is Some,
                            names@.len() == i - 2,
                            forall|j: int| 0 <= j < names@.len() ==> Some(names_view(#[trigger] names@[j]))
                                == line_names_at(tv, j + 2),
                        decreases ts@.len() - i,
                    {
                        match names_at(&ts, i) {
                            Some(n) => {
                                names.push(n);
                            },
                            None => {
                                assert(!all_names_from(tv, 2));
                                return None;
                            },
                        }
                        i = i + 1;
                    }
                    let r = GenericNameRepeat { count, line_names: names };
                    assert(names_list_view(r.line_names) =~= Seq::new(
                        (tv.len() - 2) as nat,
                        |j: int| line_names_at(tv, j + 2)->0,
                    ));
                    Some(r)
                },
                Err(_) => None,
            }
        },
        _ => None,
    }
}

/// A count brought down to `usize::MAX`.
pub open spec fn saturate(x: int) -> int {
    if x > usize::MAX {
        usize::MAX as int
    } else {
        x
    }
}

/// One more value in front of a parsed rest of a `<line-name-list>`.
pub open spec fn prepend_names_value(v: NamesValueV, rest: Result<(Seq<NamesValueV>, int), int>) -> Result<(Seq<NamesValueV>, int), int> {
    match rest {
        Ok((vs, e)) => Ok((seq![v] + vs, e)),
        Err(p) => Err(p),
    }
}

/// The `[<line-names> | <name-repeat>]*` of a `<line-name-list>` from `pos`
/// to the end: its values, and `expanded` plus the number of name groups
/// they expand to (saturating), `repeat(auto-fill, ...)` not counted. At
/// most one `repeat(auto-fill, ...)` is allowed. Or the position of the
/// grammar violation.
pub open spec fn subgrid_items(ts: Seq<ComponentView>, pos: int, auto_seen: bool, expanded: int) -> Result<(Seq<NamesValueV>, int), int>
    decreases ts.len() - pos,
{
    if pos < 0 || pos > ts.len() {
        Err(pos)
    } else if pos == ts.len() {
        Ok((Seq::empty(), expanded))
    } else {
        match name_repeat_of(ts[pos]) {
            Some(r) => if r.count is AutoFill {
                if auto_seen {
                    Err(pos)
                } else {
                    prepend_names_value(NamesValueV::Repeat(r), subgrid_items(ts, pos + 1, true, expanded))
                }
            } else {
                prepend_names_value(
                    NamesValueV::Repeat(r),
                    subgrid_items(ts, pos + 1, auto_seen, saturate(expanded + r.count->Number_0 * r.names.len())),
                )
            },
            None => match line_names_at(ts, pos) {
                Some(n) => prepend_names_value(NamesValueV::Names(n), subgrid_items(ts, pos + 1, auto_seen, saturate(expanded + 1))),
                None => Err(pos),
            },
        }
    }
}

/// The values and expanded length read, in mathematical terms.
pub open spec fn subgrid_items_result(r: Result<(Vec<GenericLineNameListValue>, usize), ParseError>) -> Result<(Seq<NamesValueV>, int), int> {
    match r {
        Ok((vs, e)) => Ok((names_values_view(vs), e as int)),
        Err(e) => Err(e.position as int),
    }
}

/// Reads the rest of a `<line-name-list>` from `pos`.
fn subgrid_items_from(ts: &Vec<Component>, pos: usize, auto_seen: bool, expanded: usize) -> (r: Result<(Vec<GenericLineNameListValue>, usize), ParseError>)
    requires
        pos <= ts@.len(),
    ensures
        subgrid_items_result(r) == subgrid_items(component_views(ts@), pos as int, auto_seen, expanded as int),
    decreases ts@.len() - pos,
{
    let ghost tv = component_views(ts@);
    if pos == ts.len() {
        let vs: Vec<GenericLineNameListValue> = Vec::new();
        assert(names_values_view(vs) =~= Seq::<NamesValueV>::empty());
        return Ok((vs, expanded));
    }
    assert(tv[pos as int] == ts@[pos as int]@);
    let (value, next_seen, next_expanded) = match name_repeat_from(&ts[pos]) {
        Some(rep) => {
            match rep.count {
                RepeatCount::AutoFill => {
                    if auto_seen {
                        return Err(ParseError { position: pos });
                    }
                    (GenericLineNameListValue::Repeat(rep), true, expanded)
                },
                RepeatCount::Number(c) => {
                    let count = c as u128;
                    let len = rep.line_names.len() as u128;
                    assert(count * len <= 10000 * 0xffff_ffff_ffff_ffffu128) by (nonlinear_arith)
                        requires
                            count <= 10000,
                            len <= 0xffff_ffff_ffff_ffffu128,
                    ;
                    let total: u128 = expanded as u128 + count * len;
                    let next = if total > usize::MAX as u128 {
                        usize::MAX
                    } else {
                        total as usize
                    };
                    (GenericLineNameListValue::Repeat(rep), auto_seen, next)
                },
                RepeatCount::AutoFit => {
                    return Err(ParseError { position: pos });
                },
            }
        },
        None => {
            match names_at(ts, pos) {
                Some(n) => {
                    let next = if expanded == usize::MAX {
                        usize::MAX
                    } else {
                        expanded + 1
                    };
                    (GenericLineNameListValue::LineNames(n), auto_seen, next)
                },
                None => {
                    return Err(ParseError { position: pos });
                },
            }
        },
    };
    let ghost vv = names_value_view(value);
    match subgrid_items_from(ts, pos + 1, next_seen, next_expanded) {
        Ok((vs, e)) => {
            let ghost vs0 = vs@;
            let mut vs = vs;
            vs.insert(0, value);
            assert(names_values_view(vs) =~= seq![vv] + vs0.map_values(|x: GenericLineNameListValue| names_value_view(x)));
            Ok((vs, e))
        },
        Err(e) => Err(e),
    }
}

/// The `<line-name-list>` that a sequence of component values is:
/// `subgrid [<line-names> | <name-repeat>]*`; or the position of the
/// grammar violation.
pub open spec fn name_list_of(ts: Seq<ComponentView>) -> Result<NameListV, int> {
    if ts.len() >= 1 && ts[0] is Ident && matches_keyword(ts[0]->Ident_0, "subgrid"@) {
        match subgrid_items(ts, 1, false, 0) {
            Ok((vs, e)) => Ok(NameListV { expanded: e, values: vs }),
            Err(p) => Err(p),
        }
    } else {
        Err(0)
    }
}

/// A `<line-name-list>` parse result, in mathematical terms.
pub open spec fn name_list_result(r: Result<GenericLineNameList, ParseError>) -> Result<NameListV, int> {
    match r {
        Ok(l) => Ok(name_list_view(l)),
        Err(e) => Err(e.position as int),
    }
}

/// Reads `subgrid <line-name-list>` from all of `ts`.
fn name_list_from(ts: &Vec<Component>) -> (r: Result<GenericLineNameList, ParseError>)
    ensures
        name_list_result(r) == name_list_of(component_views(ts@)),
{
    if ts.len() == 0 {
        return Err(ParseError { position: 0 });
    }
    assert(component_views(ts@)[0] == ts@[0]@);
    match &ts[0] {
        Component::Ident(s) => {
            if !keyword_matches(s.as_str(), "subgrid") {
                return Err(ParseError { position: 0 });
            }
        },
        _ => {
            return Err(ParseError { position: 0 });
        },
    }
    match subgrid_items_from(ts, 1, false, 0) {
        Ok((vs, e)) => Ok(GenericLineNameList { expanded_line_names_length: e, line_names: vs }),
        Err(e) => Err(e),
    }
}

impl GenericLineNameList {
    /// Reads a text that holds `subgrid <line-name-list>` and nothing else.
    pub fn parse(text: &str) -> (r: Result<GenericLineNameList, ParseError>)
        ensures
            name_list_result(r) == name_list_of(components_of(text@)),
    {
        name_list_from(&tokenize(text))
    }
}

/// The `grid-template-rows` / `grid-template-columns` value that a sequence
/// of component values is: `none`, `subgrid <line-name-list>?`, `masonry`,
/// or a `<track-list>`; or the position where reading it as a track list
/// failed.
pub open spec fn template_of(ts: Seq<ComponentView>) -> Result<TemplateV, int> {
    if ts.len() == 1 && ts[0] is Ident && matches_keyword(ts[0]->Ident_0, "none"@) {
        Ok(TemplateV::NoneValue)
    } else if name_list_of(ts) is Ok {
        Ok(TemplateV::Subgrid(name_list_of(ts)->Ok_0))
    } else if ts.len() == 1 && ts[0] is Ident && matches_keyword(ts[0]->Ident_0, "masonry"@) {
        Ok(TemplateV::Masonry)
    } else {
        match list_of(ts) {
            Ok(l) => Ok(TemplateV::List(l)),
            Err(p) => Err(p),
        }
    }
}

/// A `grid-template-*` parse result, in mathematical terms.
pub open spec fn template_result(r: Result<GenericGridTemplateComponent<String>, ParseError>) -> Result<TemplateV, int> {
    match r {
        Ok(t) => Ok(template_view(t)),
        Err(e) => Err(e.position as int),
    }
}

/// Whether `ts` is the one keyword `kw`, in any ASCII case.
fn single_keyword(ts: &Vec<Component>, kw: &str) -> (r: bool)
    ensures
        r == (ts@.len() == 1 && component_views(ts@)[0] is Ident && matches_keyword(
            component_views(ts@)[0]->Ident_0,
            kw@,
        )),
{
    if ts.len() != 1 {
        return false;
    }
    assert(component_views(ts@)[0] == ts@[0]@);
    match &ts[0] {
        Component::Ident(s) => keyword_matches(s.as_str(), kw),
        _ => false,
    }
}

impl GenericGridTemplateComponent<String> {
    /// Reads a text that holds a `grid-template-rows` or
    /// `grid-template-columns` value and nothing else. A value read is
    /// always well formed.
    pub fn parse(text: &str) -> (r: Result<GenericGridTemplateComponent<String>, ParseError>)
        ensures
            template_result(r) == template_of(components_of(text@)),
            r is Ok ==> r->Ok_0.wf(),
    {
        let ts = tokenize(text);
        if single_keyword(&ts, "none") {
            return Ok(GenericGridTemplateComponent::NoneValue);
        }
        if let Ok(l) = name_list_from(&ts) {
            return Ok(GenericGridTemplateComponent::Subgrid(Box::new(l)));
        }
        if single_keyword(&ts, "masonry") {
            return Ok(GenericGridTemplateComponent::Masonry);
        }
        match list_from(&ts) {
            Ok(l) => Ok(GenericGridTemplateComponent::TrackList(Box::new(l))),
            Err(e) => Err(e),
        }
    }
}

} // verus!
