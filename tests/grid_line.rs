use css_grid::grid_line::{GridLine, MAX_GRID_LINE, MIN_GRID_LINE};

fn line(ident: &str, line_num: i32, is_span: bool) -> GridLine {
    GridLine { ident: ident.to_string(), line_num, is_span }
}

#[test]
fn clamps_large_line_numbers() {
    assert_eq!(GridLine::parse("99999").unwrap(), line("", MAX_GRID_LINE, false));
    assert_eq!(GridLine::parse("-99999").unwrap(), line("", MIN_GRID_LINE, false));
    assert_eq!(GridLine::parse("99999").unwrap().line_num, 10000);
    assert_eq!(GridLine::parse("-99999").unwrap().line_num, -10000);
}

#[test]
fn auto_value() {
    let a = GridLine::auto();
    assert!(a.is_auto());
    assert!(!a.is_ident_only());
    assert!(!a.is_span);
    assert_eq!(a.to_css(), "auto");
    assert_eq!(GridLine::parse("auto").unwrap(), a);
    assert_eq!(GridLine::parse("AUTO").unwrap(), a);
}

#[test]
fn span_with_number_and_name() {
    assert_eq!(GridLine::parse("span 2 foo").unwrap(), line("foo", 2, true));
    assert_eq!(GridLine::parse("foo 2 span").unwrap(), line("foo", 2, true));
    assert_eq!(GridLine::parse("span foo 2").unwrap(), line("foo", 2, true));
}

#[test]
fn span_last_after_one_value() {
    assert_eq!(GridLine::parse("2 span").unwrap(), line("", 2, true));
    assert_eq!(GridLine::parse("foo span").unwrap(), line("foo", 0, true));
}

#[test]
fn span_between_values_rejected() {
    assert!(GridLine::parse("2 span foo").is_err());
    assert!(GridLine::parse("foo span 2").is_err());
}

#[test]
fn span_needs_positive_number_or_name() {
    assert!(GridLine::parse("span").is_err());
    assert!(GridLine::parse("span 0").is_err());
    assert!(GridLine::parse("span -3").is_err());
    assert!(GridLine::parse("0").is_err());
    assert!(GridLine::parse("").is_err());
}

#[test]
fn repeated_parts_rejected() {
    assert!(GridLine::parse("span span 2").is_err());
    assert!(GridLine::parse("2 3").is_err());
    assert!(GridLine::parse("foo bar").is_err());
    assert!(GridLine::parse("2 foo bar").is_err());
}

#[test]
fn reserved_names_are_not_line_names() {
    assert!(GridLine::parse("inherit").is_err());
    assert!(GridLine::parse("2 auto").is_err());
    assert!(GridLine::parse("2 Default").is_err());
}

#[test]
fn error_positions() {
    assert_eq!(GridLine::parse("span span").unwrap_err().position, 1);
    assert_eq!(GridLine::parse("span").unwrap_err().position, 1);
    assert_eq!(GridLine::parse("3 foo bar").unwrap_err().position, 2);
}

#[test]
fn numbered_and_named_lines() {
    assert_eq!(GridLine::parse("foo").unwrap(), line("foo", 0, false));
    assert_eq!(GridLine::parse("3 foo").unwrap(), line("foo", 3, false));
    assert_eq!(GridLine::parse("foo -2").unwrap(), line("foo", -2, false));
    assert!(GridLine::parse("foo").unwrap().is_ident_only());
}

#[test]
fn canonical_text() {
    assert_eq!(line("foo", 0, false).to_css(), "foo");
    assert_eq!(line("foo", 2, true).to_css(), "span 2 foo");
    assert_eq!(line("foo", 1, true).to_css(), "span foo");
    assert_eq!(line("", 1, true).to_css(), "span 1");
    assert_eq!(line("", 4, true).to_css(), "span 4");
    assert_eq!(line("bar", -3, false).to_css(), "-3 bar");
    assert_eq!(line("", 7, false).to_css(), "7");
    assert_eq!(line("1st", 0, false).to_css(), "\\31 st");
}

#[test]
fn text_round_trip() {
    for text in ["auto", "foo", "span 2 foo", "span foo", "span 3", "-3 bar", "7"] {
        let l = GridLine::parse(text).unwrap();
        assert_eq!(l.to_css(), text);
        assert_eq!(GridLine::parse(&l.to_css()).unwrap(), l);
    }
    let l = GridLine::parse("span 1 foo").unwrap();
    let again = GridLine::parse(&l.to_css()).unwrap();
    assert_eq!(again.to_css(), l.to_css());
    assert_eq!(GridLine::parse("FOO  3").unwrap().to_css(), "3 FOO");
}

#[test]
fn omitting_second_value() {
    let foo = line("foo", 0, false);
    assert!(foo.can_omit(&line("foo", 0, false)));
    assert!(!foo.can_omit(&line("bar", 0, false)));
    assert!(!foo.can_omit(&GridLine::auto()));
    let two = line("", 2, false);
    assert!(two.can_omit(&GridLine::auto()));
    assert!(!two.can_omit(&line("", 2, false)));
}
