use css_grid::repeat::{GenericNameRepeat, GenericTrackRepeat, RepeatCount};
use css_grid::tokens::tokenize;
use css_grid::track::{CssText, GenericImplicitGridTracks, TrackBreadth, TrackSize};
use css_grid::track_list::{
    GenericGridTemplateComponent, GenericLineNameList, GenericLineNameListValue, GenericTrackList,
    GenericTrackListValue,
};

fn len(s: &str) -> TrackBreadth<String> {
    TrackBreadth::Breadth(s.to_string())
}

fn fr(s: &str) -> TrackBreadth<String> {
    TrackBreadth::Fr(s.to_string())
}

fn names(v: &[&str]) -> Vec<String> {
    v.iter().map(|s| s.to_string()).collect()
}

#[test]
fn minmax_auto_flex_collapses() {
    let s: TrackSize<String> = TrackSize::Minmax(TrackBreadth::Auto, fr("2fr"));
    assert_eq!(s.to_css(), "2fr");
    let s: TrackSize<String> = TrackSize::Minmax(len("10px"), fr("2fr"));
    assert_eq!(s.to_css(), "minmax(10px, 2fr)");
    let s: TrackSize<String> = TrackSize::Minmax(TrackBreadth::MinContent, TrackBreadth::Auto);
    assert_eq!(s.to_css(), "minmax(min-content, auto)");
}

#[test]
fn track_size_text() {
    let s: TrackSize<String> = TrackSize::FitContent(len("40%"));
    assert_eq!(s.to_css(), "fit-content(40%)");
    let s: TrackSize<String> = TrackSize::Breadth(TrackBreadth::MaxContent);
    assert_eq!(s.to_css(), "max-content");
}

#[test]
fn fixed_sizes() {
    assert!(len("10px").is_fixed());
    assert!(!fr("1fr").is_fixed());
    assert!(!TrackBreadth::<String>::Auto.is_fixed());
    assert!(TrackSize::Breadth(len("10px")).is_fixed());
    assert!(TrackSize::Minmax(len("10px"), fr("1fr")).is_fixed());
    assert!(TrackSize::Minmax(TrackBreadth::Auto, len("10px")).is_fixed());
    assert!(!TrackSize::Minmax(fr("1fr"), len("10px")).is_fixed());
    assert!(!TrackSize::<String>::Minmax(TrackBreadth::Auto, TrackBreadth::MaxContent).is_fixed());
    assert!(!TrackSize::FitContent(len("10px")).is_fixed());
}

#[test]
fn initial_values() {
    let s: TrackSize<String> = TrackSize::initial_value();
    assert!(s.is_initial());
    assert!(TrackSize::<String>::default().is_initial());
    assert!(!TrackSize::Breadth(len("1px")).is_initial());
    assert!(GenericTrackListValue::<String>::default().is_initial());
    let c: GenericGridTemplateComponent<String> = Default::default();
    assert!(c.is_initial());
    assert_eq!(c.track_list_len(), 0);
    assert_eq!(c.to_css(), "none");
    assert_eq!(GenericGridTemplateComponent::<String>::Masonry.to_css(), "masonry");
}

#[test]
fn implicit_tracks() {
    let t: GenericImplicitGridTracks<TrackSize<String>> = GenericImplicitGridTracks(Vec::new());
    assert!(t.is_initial());
    assert_eq!(t.to_css(), "auto");
    let t = GenericImplicitGridTracks(vec![TrackSize::Breadth(len("10px")), TrackSize::Breadth(fr("1fr"))]);
    assert!(!t.is_initial());
    assert_eq!(t.to_css(), "10px 1fr");
}

#[test]
fn track_repeat_skips_empty_names() {
    let r = GenericTrackRepeat {
        count: RepeatCount::Number(2),
        line_names: vec![names(&["a"]), names(&[]), names(&[])],
        track_sizes: vec![TrackSize::Breadth(fr("1fr")), TrackSize::Breadth(len("10px"))],
    };
    assert_eq!(r.to_css(), "repeat(2, [a] 1fr 10px)");
    let r = GenericTrackRepeat {
        count: RepeatCount::AutoFill,
        line_names: vec![names(&[]), names(&["b", "c"])],
        track_sizes: vec![TrackSize::Breadth(len("10px"))],
    };
    assert_eq!(r.to_css(), "repeat(auto-fill, 10px [b c])");
    assert!(!r.to_css().contains("[]"));
}

#[test]
fn name_repeat_writes_empty_names() {
    let r = GenericNameRepeat { count: RepeatCount::Number(3), line_names: vec![names(&["a"]), names(&[])] };
    assert_eq!(r.to_css(), "repeat(3, [a] [])");
    assert!(!r.is_auto_fill());
    let r = GenericNameRepeat { count: RepeatCount::AutoFill, line_names: vec![names(&["x", "y"])] };
    assert_eq!(r.to_css(), "repeat(auto-fill, [x y])");
    assert!(r.is_auto_fill());
}

#[test]
fn track_list_text() {
    let list = GenericTrackList {
        auto_repeat_index: 2,
        values: vec![
            GenericTrackListValue::TrackSize(TrackSize::Breadth(len("10px"))),
            GenericTrackListValue::TrackSize(TrackSize::Breadth(fr("1fr"))),
        ],
        line_names: vec![names(&["a"]), names(&[]), names(&["b"])],
    };
    assert_eq!(list.to_css(), "[a] 10px 1fr [b]");
    assert!(list.is_explicit());
    assert!(!list.has_auto_repeat());
    let list = GenericTrackList {
        auto_repeat_index: 1,
        values: vec![
            GenericTrackListValue::TrackSize(TrackSize::Breadth(len("10px"))),
            GenericTrackListValue::TrackRepeat(GenericTrackRepeat {
                count: RepeatCount::AutoFit,
                line_names: vec![names(&[]), names(&[])],
                track_sizes: vec![TrackSize::Breadth(len("5px"))],
            }),
        ],
        line_names: vec![names(&[]), names(&[]), names(&[])],
    };
    assert_eq!(list.to_css(), "10px repeat(auto-fit, 5px)");
    assert!(!list.is_explicit());
    assert!(list.has_auto_repeat());
    let c = GenericGridTemplateComponent::TrackList(Box::new(list));
    assert_eq!(c.track_list_len(), 2);
    assert!(!c.is_initial());
}

#[test]
fn line_name_list_text() {
    let list = GenericLineNameList {
        expanded_line_names_length: 3,
        line_names: vec![
            GenericLineNameListValue::LineNames(names(&["a"])),
            GenericLineNameListValue::LineNames(names(&["b", "c"])),
            GenericLineNameListValue::Repeat(GenericNameRepeat {
                count: RepeatCount::Number(2),
                line_names: vec![names(&["d"])],
            }),
            GenericLineNameListValue::LineNames(names(&[])),
        ],
    };
    assert_eq!(list.to_css(), "subgrid [a] [b c] repeat(2, [d]) []");
    let c = GenericGridTemplateComponent::<String>::Subgrid(Box::new(list));
    assert_eq!(c.to_css(), "subgrid [a] [b c] repeat(2, [d]) []");
}

#[test]
fn repeat_count_parse() {
    let t = tokenize("auto-fill");
    assert_eq!(RepeatCount::parse_tokens(&t, 0).unwrap(), (RepeatCount::AutoFill, 1));
    let t = tokenize("AUTO-FIT");
    assert_eq!(RepeatCount::parse_tokens(&t, 0).unwrap(), (RepeatCount::AutoFit, 1));
    let t = tokenize("12345");
    assert_eq!(RepeatCount::parse_tokens(&t, 0).unwrap(), (RepeatCount::Number(10000), 1));
    let t = tokenize("3");
    assert_eq!(RepeatCount::parse_tokens(&t, 0).unwrap(), (RepeatCount::Number(3), 1));
    assert!(RepeatCount::parse_tokens(&tokenize("0"), 0).is_err());
    assert!(RepeatCount::parse_tokens(&tokenize("-1"), 0).is_err());
    assert!(RepeatCount::parse_tokens(&tokenize("auto"), 0).is_err());
    assert!(RepeatCount::parse_tokens(&tokenize("2.5"), 0).is_err());
    assert_eq!(RepeatCount::Number(7).to_css(), "7");
}
