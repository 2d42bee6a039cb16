use hyprland_monitor_attached::event::{decode_event, parse_event, split_fields, Event};

fn strings(v: &[&str]) -> Vec<String> {
    v.iter().map(|s| s.to_string()).collect()
}

#[test]
fn split_trimmed_attach_line() {
    let line = "monitoradded>>HDMI-A-1\n";
    assert_eq!(split_fields(line.trim()), strings(&["monitoradded", "HDMI-A-1"]));
}

#[test]
fn split_without_separator() {
    assert_eq!(split_fields("monitoradded"), strings(&["monitoradded"]));
    assert_eq!(split_fields(""), strings(&[""]));
}

#[test]
fn split_separators_at_edges_and_in_a_row() {
    assert_eq!(split_fields(">>"), strings(&["", ""]));
    assert_eq!(split_fields("a>>b>>c"), strings(&["a", "b", "c"]));
    assert_eq!(split_fields("a>>>>b"), strings(&["a", "", "b"]));
    assert_eq!(split_fields("a>>>b"), strings(&["a", ">b"]));
    assert_eq!(split_fields("a>b>"), strings(&["a>b>"]));
}

#[test]
fn split_non_ascii() {
    assert_eq!(split_fields("é>>ü>>"), strings(&["é", "ü", ""]));
}

#[test]
fn parse_attach_line() {
    assert_eq!(parse_event("monitoradded>>HDMI-A-1\n"), Event::Attached("HDMI-A-1".to_string()));
}

#[test]
fn parse_detach_line_with_white_space() {
    assert_eq!(parse_event("  monitorremoved>>DP-2 \r\n"), Event::Detached("DP-2".to_string()));
}

#[test]
fn parse_keeps_fields_after_the_second() {
    assert_eq!(parse_event("monitoradded>>eDP-1>>extra"), Event::Attached("eDP-1".to_string()));
}

#[test]
fn parse_other_tags_ignored() {
    assert_eq!(parse_event("workspace>>2\n"), Event::Ignored);
    assert_eq!(parse_event("activewindow>>kitty,~\n"), Event::Ignored);
    assert_eq!(parse_event("monitoraddedv2>>1,eDP-1,desc\n"), Event::Ignored);
    assert_eq!(parse_event("\n"), Event::Ignored);
}

#[test]
fn parse_tag_without_name_ignored() {
    assert_eq!(parse_event("monitoradded\n"), Event::Ignored);
}

#[test]
fn decode_valid_bytes() {
    assert_eq!(decode_event(b"monitorremoved>>eDP-1\n"), Event::Detached("eDP-1".to_string()));
}

#[test]
fn decode_replaces_invalid_bytes() {
    assert_eq!(
        decode_event(b"monitoradded>>eDP-\xff1\n"),
        Event::Attached("eDP-\u{FFFD}1".to_string())
    );
}
