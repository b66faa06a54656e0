use native_overlay::metadata::metadata_clean_text;

#[test]
fn metadata_text_collapses_spaces_and_blank_runs() {
    let raw = "  a \r\n\r\n\r\n b  c \\n\\n d\n\n";
    assert_eq!(metadata_clean_text(raw), "a\n\nb c\n\nd");
}

#[test]
fn metadata_text_drops_leading_and_trailing_blank_lines() {
    assert_eq!(metadata_clean_text("\n\n x \n"), "x");
    assert_eq!(metadata_clean_text(""), "");
    assert_eq!(metadata_clean_text(" \r\n \t "), "");
}

#[test]
fn metadata_text_turns_escaped_breaks_into_lines() {
    assert_eq!(metadata_clean_text("one\\r\\ntwo\\nthree\rfour"), "one\ntwo\nthree\nfour");
}

#[test]
fn metadata_text_keeps_single_blank_line_between_paragraphs() {
    assert_eq!(metadata_clean_text("p1\n\n\n\np2"), "p1\n\np2");
    assert_eq!(metadata_clean_text("p1\np2"), "p1\np2");
}

fn is_tidy(r: &str) -> bool {
    let cs: Vec<char> = r.chars().collect();
    let ends_ok = cs.first().map_or(true, |c| !c.is_whitespace()) && cs.last().map_or(true, |c| !c.is_whitespace());
    let kinds_ok = cs.iter().all(|c| !c.is_whitespace() || *c == ' ' || *c == '\n');
    let pairs_ok = cs.windows(2).all(|w| !(w[0] == ' ' && w[1].is_whitespace()) && !(w[0].is_whitespace() && w[1] == ' '));
    let triples_ok = cs.windows(3).all(|w| !(w[0] == '\n' && w[1] == '\n' && w[2] == '\n'));
    ends_ok && kinds_ok && pairs_ok && triples_ok
}

#[test]
fn metadata_text_unicode_whitespace_reads_as_tidy_paragraphs() {
    let raw = "\u{3000}タイトル\u{00A0}\u{00A0}本文\t\n\u{2028}\n\n末尾 ";
    let cleaned = metadata_clean_text(raw);
    assert_eq!(cleaned, "タイトル 本文\n\n末尾");
    for input in [raw, "  a \r\n\r\n\r\n b  c \\n\\n d\n\n", "\\\\n x\r\r\r y \t z", " \n \n "] {
        assert!(is_tidy(&metadata_clean_text(input)), "{input:?}");
    }
}

#[test]
fn metadata_text_cleaning_twice_changes_nothing_and_leaves_no_escapes() {
    for input in [
        "  a \r\n\r\n\r\n b  c \\n\\n d\n\n",
        "one\\r\\ntwo\\nthree\rfour",
        "\\\\n x\r\r\r y \t z",
        "\u{3000}タイトル\u{00A0}\u{00A0}本文\t\n\u{2028}\n\n末尾 ",
        "",
    ] {
        let once = metadata_clean_text(input);
        assert_eq!(metadata_clean_text(&once), once, "{input:?}");
        assert!(!once.contains('\r') && !once.contains("\\n"), "{input:?}");
    }
}
