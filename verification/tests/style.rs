//! The prose rules on concrete text.

use rucc_cross::style::{check, is_horizontal_rule, is_structural, Finding};

fn findings(text: &str) -> Vec<(usize, &'static str)> {
    let mut found: Vec<Finding> = Vec::new();
    check("doc.md", text, &mut found);
    assert!(found.iter().all(|f| f.path == "doc.md"));
    found.iter().map(|f| (f.line, f.message)).collect()
}

const WRAPPED: &str = "a sentence continues onto a new line, so the paragraph is wrapped";
const RULE: &str = "horizontal rule, which is a page break";

#[test]
fn every_rule_is_reported_in_line_order() {
    let text = "# Title\nA sentence \u{2014} with a dash.\n\n---\nOne line\nwraps here.\n```\n\
                A fenced \u{2014} dash\ncontinues\n```\n- item\n- item\n";
    assert_eq!(
        findings(text),
        vec![(2, "em dash"), (4, RULE), (5, WRAPPED), (6, WRAPPED)]
    );
}

#[test]
fn a_clean_file_has_no_findings() {
    assert_eq!(findings(""), vec![]);
    assert_eq!(findings("One paragraph on one line.\n\nAnother one.\n"), vec![]);
    assert_eq!(findings("| a | b |\n| - | - |\n1. first\n2. second\n> quoted\n> again\n"), vec![]);
}

#[test]
fn both_dashes_on_one_line_are_two_findings() {
    assert_eq!(findings("x \u{2013} y \u{2014} z"), vec![(1, "em dash"), (1, "en dash")]);
}

#[test]
fn the_first_line_may_open_front_matter() {
    assert_eq!(findings("---\n\ntext\n\n---\n"), vec![(5, RULE)]);
}

#[test]
fn carriage_returns_end_lines_too() {
    assert_eq!(findings("a\r\nb\r\n"), vec![(2, WRAPPED)]);
    assert_eq!(findings("a\r\n\r\nb"), vec![]);
}

#[test]
fn a_fence_exempts_everything_inside_it() {
    assert_eq!(findings("~~~\n---\n\u{2014}\nwrapped\nlines\n~~~\n"), vec![]);
    assert_eq!(findings("text\n```\ncode\n```\n"), vec![]);
}

#[test]
fn structure_is_recognized() {
    for line in [
        "    code",
        "\tcode",
        "# heading",
        "> quote",
        "- item",
        "* item",
        "+ item",
        "|cell|",
        "<!-- note -->",
        "[link]: https://example.com",
        "```rust",
        "~~~",
        "1. first",
        "12) twelfth",
        "  3. indented",
    ] {
        assert!(is_structural(line), "`{line}` is structure");
    }
    for line in ["text", "1.5 million", "-dash", "12", "", "   "] {
        assert!(!is_structural(line), "`{line}` is a sentence");
    }
}

#[test]
fn horizontal_rules_are_three_of_one_character() {
    for line in ["---", "***", "___", "-----", "___  \t"] {
        assert!(is_horizontal_rule(line), "`{line}` is a rule");
    }
    for line in ["--", "-*-", " x ", "", " ---", "--- x"] {
        assert!(!is_horizontal_rule(line), "`{line}` is not a rule");
    }
}
