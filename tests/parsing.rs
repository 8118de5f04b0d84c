use css_grid::repeat::RepeatCount;
use css_grid::track::{CssText, TrackBreadth, TrackSize};
use css_grid::track_list::{
    GenericGridTemplateComponent, GenericLineNameList, GenericLineNameListValue, GenericTrackList,
    GenericTrackListValue,
};

type List = GenericTrackList<String>;
type Template = GenericGridTemplateComponent<String>;

fn names(v: &[&str]) -> Vec<String> {
    v.iter().map(|s| s.to_string()).collect()
}

#[test]
fn parsed_track_list_has_one_more_name_group() {
    for text in ["10px", "[a] 10px [b] 1fr [c]", "repeat(2, 10px) 1fr", "[x] minmax(10px, 1fr) [y z]"] {
        let l = List::parse(text).unwrap();
        assert_eq!(l.line_names.len(), l.values.len() + 1);
    }
}

#[test]
fn track_list_values() {
    let l = List::parse("[a] 10px [b] 1fr [c]").unwrap();
    assert_eq!(l.values.len(), 2);
    assert_eq!(l.line_names, vec![names(&["a"]), names(&["b"]), names(&["c"])]);
    assert!(matches!(&l.values[0], GenericTrackListValue::TrackSize(TrackSize::Breadth(TrackBreadth::Breadth(s))) if s == "10px"));
    assert!(matches!(&l.values[1], GenericTrackListValue::TrackSize(TrackSize::Breadth(TrackBreadth::Fr(s))) if s == "1fr"));
    assert!(l.is_explicit());
    assert!(!l.has_auto_repeat());
    assert_eq!(l.to_css(), "[a] 10px [b] 1fr [c]");
}

#[test]
fn auto_fill_repeat_parses() {
    let l = List::parse("repeat(auto-fill, [a] 1fr)").unwrap();
    assert_eq!(l.auto_repeat_index, 0);
    assert!(l.has_auto_repeat());
    match &l.values[0] {
        GenericTrackListValue::TrackRepeat(r) => {
            assert_eq!(r.count, RepeatCount::AutoFill);
            assert_eq!(r.line_names, vec![names(&["a"]), names(&[])]);
            assert_eq!(r.track_sizes.len(), 1);
        },
        _ => panic!("expected a repeat"),
    }
    assert_eq!(l.to_css(), "repeat(auto-fill, [a] 1fr)");
}

#[test]
fn second_auto_repeat_rejected() {
    assert!(List::parse("repeat(auto-fill, 10px) repeat(auto-fit, 10px)").is_err());
    assert!(List::parse("repeat(auto-fit, 10px) repeat(3, 10px)").is_ok());
}

#[test]
fn auto_repeat_index_spacing() {
    let l = List::parse("10px repeat(auto-fit, 5px) [end]").unwrap();
    assert_eq!(l.auto_repeat_index, 1);
    assert_eq!(l.to_css(), "10px repeat(auto-fit, 5px) [end]");
}

#[test]
fn minmax_and_fit_content() {
    let l = List::parse("minmax(auto, 2fr) minmax(10px, 2fr) fit-content(40%)").unwrap();
    assert_eq!(l.to_css(), "2fr minmax(10px, 2fr) fit-content(40%)");
    assert!(List::parse("minmax(1fr, 10px)").is_err());
    assert!(List::parse("fit-content(auto)").is_err());
    assert!(List::parse("minmax(10px)").is_err());
}

#[test]
fn invalid_track_lists() {
    assert!(List::parse("").is_err());
    assert!(List::parse("[a]").is_err());
    assert!(List::parse("-10px").is_err());
    assert!(List::parse("10px [a] [b]").is_err());
    assert!(List::parse("[auto] 10px").is_err());
    assert!(List::parse("[span] 10px").is_err());
    assert!(List::parse("repeat(0, 10px)").is_err());
    assert!(List::parse("repeat(2, [a])").is_err());
    assert!(List::parse("repeat(2 10px)").is_err());
    assert!(List::parse("10px foo").is_err());
}

#[test]
fn track_repeat_text_skips_empty_names() {
    let l = List::parse("repeat(2, 10px [] 20px [b])").unwrap();
    let text = l.to_css();
    assert_eq!(text, "repeat(2, 10px 20px [b])");
    assert!(!text.contains("[]"));
}

#[test]
fn subgrid_round_trip() {
    let l = GenericLineNameList::parse("subgrid [a] [b c] repeat(2, [d])").unwrap();
    assert_eq!(l.line_names.len(), 3);
    assert_eq!(l.expanded_line_names_length, 4);
    assert_eq!(l.to_css(), "subgrid [a] [b c] repeat(2, [d])");
    let again = GenericLineNameList::parse(&l.to_css()).unwrap();
    assert_eq!(again, l);
    let spaced = GenericLineNameList::parse("subgrid  [a]   [b  c]  repeat( 2 ,  [d] )").unwrap();
    assert_eq!(spaced.to_css(), "subgrid [a] [b c] repeat(2, [d])");
}

#[test]
fn name_repeat_refuses_auto_fit() {
    assert!(GenericLineNameList::parse("subgrid repeat(auto-fit, [a])").is_err());
    let l = GenericLineNameList::parse("subgrid repeat(auto-fill, [a] []) [b]").unwrap();
    assert_eq!(l.expanded_line_names_length, 1);
    match &l.line_names[0] {
        GenericLineNameListValue::Repeat(r) => assert!(r.is_auto_fill()),
        _ => panic!("expected a repeat"),
    }
    assert_eq!(l.to_css(), "subgrid repeat(auto-fill, [a] []) [b]");
    assert!(GenericLineNameList::parse("subgrid repeat(auto-fill, [a]) repeat(auto-fill, [b])").is_err());
    assert!(GenericLineNameList::parse("subgrid repeat(2)").is_err());
}

#[test]
fn bare_subgrid() {
    let l = GenericLineNameList::parse("subgrid").unwrap();
    assert!(l.line_names.is_empty());
    assert_eq!(l.to_css(), "subgrid");
}

#[test]
fn template_values() {
    assert!(Template::parse("none").unwrap().is_initial());
    assert!(matches!(Template::parse("masonry").unwrap(), GenericGridTemplateComponent::Masonry));
    let t = Template::parse("subgrid [a]").unwrap();
    assert_eq!(t.to_css(), "subgrid [a]");
    assert_eq!(t.track_list_len(), 0);
    let t = Template::parse("[a] 10px repeat(2, 1fr)").unwrap();
    assert_eq!(t.track_list_len(), 2);
    assert_eq!(t.to_css(), "[a] 10px repeat(2, 1fr)");
    assert!(Template::parse("none 10px").is_err());
    assert!(Template::parse("").is_err());
}

#[test]
fn canonical_text_is_stable() {
    for text in ["[a] 10px repeat(2, [b] 1fr [c]) [d]", "minmax(10px, 1fr) 0", "repeat(auto-fill, 10%) 20px"] {
        let l = List::parse(text).unwrap();
        let once = l.to_css();
        let again = List::parse(&once).unwrap();
        assert_eq!(again, l);
        assert_eq!(again.to_css(), once);
    }
}

#[test]
fn collapsed_minmax_reads_back_as_flex() {
    let l = List::parse("minmax(auto, 1fr) 0").unwrap();
    let once = l.to_css();
    assert_eq!(once, "1fr 0");
    let again = List::parse(&once).unwrap();
    assert!(matches!(&again.values[0], GenericTrackListValue::TrackSize(TrackSize::Breadth(TrackBreadth::Fr(_)))));
    assert_eq!(again.to_css(), once);
}

#[test]
fn error_positions_in_lists() {
    assert_eq!(List::parse("10px foo").unwrap_err().position, 1);
    assert_eq!(List::parse("[a] 10px [b] bar").unwrap_err().position, 3);
    assert_eq!(List::parse("").unwrap_err().position, 0);
    assert_eq!(List::parse("repeat(auto-fill, 10px) repeat(auto-fit, 10px)").unwrap_err().position, 1);
    assert_eq!(GenericLineNameList::parse("subgrid [a] 10px").unwrap_err().position, 2);
    assert_eq!(GenericLineNameList::parse("grid [a]").unwrap_err().position, 0);
    assert_eq!(Template::parse("10px none").unwrap_err().position, 1);
}
