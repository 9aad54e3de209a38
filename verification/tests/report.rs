use leto::report::{foreign_from_links, foreign_from_report, ChainLink};
use leto::request::trim;

fn link(has_source: bool, text: &str) -> ChainLink {
    ChainLink { has_source, text: text.to_string() }
}

#[test]
fn only_innermost_links_reach_the_payload() {
    let f = foreign_from_links(
        "write failed".to_string(),
        &vec![link(true, "write failed"), link(true, "io"), link(false, "disk full"), link(false, "quota")],
    );
    assert_eq!(f.display(), "write failed");
    assert_eq!(f.leaves(), &vec!["disk full".to_string(), "quota".to_string()]);
    assert!(foreign_from_links("x".to_string(), &vec![]).leaves().is_empty());
}

#[test]
fn a_report_keeps_its_rendering_and_its_innermost_text() {
    let report = erris::Report::from_message("disk full");
    let f = foreign_from_report(&report);
    assert_eq!(f.display(), &report.to_string());
    assert!(f.leaves().contains(&"disk full".to_string()));
}

#[test]
fn trim_drops_unicode_white_space_at_both_ends() {
    assert_eq!(trim("  a b \t\n"), "a b");
    assert_eq!(trim("\u{3000}x\u{a0}"), "x");
    assert_eq!(trim("   "), "");
    assert_eq!(trim(""), "");
    assert_eq!(trim("x"), "x");
    for s in ["  a b \t\n", "\u{2028}y\u{85} z\u{200a}", " \u{1680}", "plain", "\u{feff}z"] {
        assert_eq!(trim(s), s.trim());
    }
}
