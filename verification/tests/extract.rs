use md_events::LinkKind;
use md_events::Record;
use md_events::link_kind_label;
use md_events::parse;

fn find_start(records: &[Record], tag: &str) -> usize {
    records
        .iter()
        .position(|r| r.typ == "START" && r.tag == tag)
        .unwrap_or_else(|| panic!("no START {} record", tag))
}

fn assert_balanced(records: &[Record]) {
    let mut stack: Vec<String> = Vec::new();
    for r in records {
        if r.typ == "START" {
            stack.push(r.tag.clone());
        } else if r.typ == "END" {
            let top = stack.pop().expect("END record with no open START");
            assert_eq!(top, r.tag, "END closes a tag that is not open");
        }
    }
    assert!(stack.is_empty(), "some START record stays unmatched");
}

fn assert_leaf_defaults(r: &Record) {
    assert_eq!(r.tag, "");
    assert_eq!(r.level, 0);
    assert_eq!(r.kind, "");
    assert!(!r.fenced);
    assert_eq!(r.language, "");
    assert_eq!(r.start_number, 0);
    assert_eq!(r.label, "");
    assert!(r.alignments.is_empty());
    assert_eq!(r.url, "");
    assert_eq!(r.title, "");
}

#[test]
fn heading_scenario() {
    let records = parse("# Hi");
    assert_eq!(records[0].typ, "START");
    assert_eq!(records[0].tag, "HEADING");
    assert_eq!(records[0].level, 1);
    assert_eq!(records[1].typ, "TEXT");
    assert_eq!(records[1].content, "Hi");
    assert_eq!(records[2].typ, "END");
    assert_eq!(records[2].tag, "HEADING");
    assert_eq!(records[2].level, 1);
}

#[test]
fn emphasis_scenario() {
    let records = parse("*em*");
    let i = find_start(&records, "EMPHASIS");
    assert_eq!(records[i + 1].typ, "TEXT");
    assert_eq!(records[i + 1].content, "em");
    assert_eq!(records[i + 2].typ, "END");
    assert_eq!(records[i + 2].tag, "EMPHASIS");
}

#[test]
fn task_list_scenario() {
    let records = parse("- [x] done");
    let list = find_start(&records, "LIST");
    assert_eq!(records[list].start_number, 0);
    let item = find_start(&records, "ITEM");
    assert!(list < item);
    let marker = records
        .iter()
        .position(|r| r.typ == "TASK_LIST_MARKER")
        .expect("no task list marker record");
    assert!(item < marker);
    assert!(records[marker].checked);
    assert_eq!(records[marker + 1].typ, "TEXT");
    assert_eq!(records[marker + 1].content, "done");
}

#[test]
fn unchecked_task_marker() {
    let records = parse("- [ ] open");
    let marker = records
        .iter()
        .position(|r| r.typ == "TASK_LIST_MARKER")
        .expect("no task list marker record");
    assert!(!records[marker].checked);
}

#[test]
fn table_scenario() {
    let records = parse("| a | b |\n|---|---|\n|1|2|");
    let starts: Vec<&Record> = records
        .iter()
        .filter(|r| r.typ == "START" && r.tag == "TABLE")
        .collect();
    assert_eq!(starts.len(), 1);
    assert_eq!(starts[0].alignments, vec!["None".to_string(), "None".to_string()]);
}

#[test]
fn table_explicit_alignments() {
    let records = parse("| a | b | c |\n|:--|:-:|--:|\n|1|2|3|");
    let i = find_start(&records, "TABLE");
    assert_eq!(
        records[i].alignments,
        vec!["Left".to_string(), "Center".to_string(), "Right".to_string()]
    );
}

#[test]
fn ordered_list_start_number() {
    let records = parse("3. a");
    let i = find_start(&records, "LIST");
    assert_eq!(records[i].start_number, 3);
}

#[test]
fn unordered_list_start_number_zero() {
    let records = parse("- a");
    let i = find_start(&records, "LIST");
    assert_eq!(records[i].start_number, 0);
}

#[test]
fn fenced_code_block() {
    let records = parse("```rust\nlet x = 1;\n```");
    let i = find_start(&records, "CODE_BLOCK");
    assert_eq!(records[i].kind, "FENCED");
    assert_eq!(records[i].language, "rust");
    assert_eq!(records[i + 1].typ, "TEXT");
    assert_eq!(records[i + 1].content, "let x = 1;\n");
}

#[test]
fn fenced_code_block_without_language() {
    let records = parse("```\nx\n```");
    let i = find_start(&records, "CODE_BLOCK");
    assert_eq!(records[i].kind, "FENCED");
    assert_eq!(records[i].language, "");
}

#[test]
fn indented_code_block() {
    let records = parse("    foo\n");
    let i = find_start(&records, "CODE_BLOCK");
    assert_eq!(records[i].kind, "INDENTED");
    assert_eq!(records[i].language, "");
}

#[test]
fn inline_link() {
    let records = parse("[t](https://e.x \"ti\")");
    let i = find_start(&records, "LINK");
    assert_eq!(records[i].kind, "INLINE");
    assert_eq!(records[i].url, "https://e.x");
    assert_eq!(records[i].title, "ti");
}

#[test]
fn autolink() {
    let records = parse("<https://e.x/>");
    let i = find_start(&records, "LINK");
    assert_eq!(records[i].kind, "AUTOLINK");
    assert_eq!(records[i].url, "https://e.x/");
}

#[test]
fn email_autolink() {
    let records = parse("<a@b.cd>");
    let i = find_start(&records, "LINK");
    assert_eq!(records[i].kind, "EMAIL");
    assert_eq!(records[i].url, "a@b.cd");
}

#[test]
fn shortcut_link() {
    let records = parse("[foo]\n\n[foo]: /bar");
    let i = find_start(&records, "LINK");
    assert_eq!(records[i].kind, "SHORTCUT");
    assert_eq!(records[i].url, "/bar");
}

#[test]
fn reference_link() {
    let records = parse("[foo][bar]\n\n[bar]: /baz \"t\"");
    let i = find_start(&records, "LINK");
    assert_eq!(records[i].kind, "REFERENCE");
    assert_eq!(records[i].url, "/baz");
    assert_eq!(records[i].title, "t");
}

#[test]
fn collapsed_link() {
    let records = parse("[foo][]\n\n[foo]: /f");
    let i = find_start(&records, "LINK");
    assert_eq!(records[i].kind, "COLLAPSED");
    assert_eq!(records[i].url, "/f");
}

#[test]
fn inline_image() {
    let records = parse("![alt](/i.png)");
    let i = find_start(&records, "IMAGE");
    assert_eq!(records[i].kind, "INLINE");
    assert_eq!(records[i].url, "/i.png");
}

#[test]
fn link_kind_labels_cover_all_seven() {
    assert_eq!(link_kind_label(LinkKind::Inline), "INLINE");
    assert_eq!(link_kind_label(LinkKind::Reference), "REFERENCE");
    assert_eq!(link_kind_label(LinkKind::Autolink), "AUTOLINK");
    assert_eq!(link_kind_label(LinkKind::Email), "EMAIL");
    assert_eq!(link_kind_label(LinkKind::Shortcut), "SHORTCUT");
    assert_eq!(link_kind_label(LinkKind::Collapsed), "COLLAPSED");
    assert_eq!(link_kind_label(LinkKind::Unknown), "UNKNOWN");
}

#[test]
fn blockquote_and_rule() {
    let records = parse("> q\n\n---");
    let i = find_start(&records, "BLOCK_QUOTE");
    assert_eq!(records[i].typ, "START");
    assert!(records.iter().any(|r| r.typ == "RULE"));
}

#[test]
fn soft_and_hard_breaks() {
    let soft = parse("a\nb");
    assert!(soft.iter().any(|r| r.typ == "SOFT_BREAK"));
    let hard = parse("a\\\nb");
    assert!(hard.iter().any(|r| r.typ == "HARD_BREAK"));
}

#[test]
fn footnote_reference_and_definition() {
    let records = parse("Here[^1]\n\n[^1]: note");
    let fr = records
        .iter()
        .find(|r| r.typ == "FOOTNOTE_REFERENCE")
        .expect("no footnote reference record");
    assert_eq!(fr.content, "1");
    let i = find_start(&records, "FOOTNOTE_DEFINITION");
    assert_eq!(records[i].label, "1");
}

#[test]
fn strikethrough() {
    let records = parse("~~x~~");
    let i = find_start(&records, "STRIKETHROUGH");
    assert_eq!(records[i + 1].content, "x");
}

#[test]
fn inline_code_record() {
    let records = parse("`c`");
    let code = records.iter().find(|r| r.typ == "CODE").expect("no CODE record");
    assert_eq!(code.content, "c");
    assert_leaf_defaults(code);
}

#[test]
fn html_block_record() {
    let records = parse("<div>\nhi\n</div>");
    assert!(records.iter().any(|r| r.typ == "HTML"));
}

#[test]
fn heading_levels_bounded() {
    let records = parse("# a\n\n###### b\n\n####### c");
    for r in &records {
        if r.tag == "HEADING" {
            assert!((1..=6).contains(&r.level));
        }
    }
    let six = parse("###### b");
    assert_eq!(six[0].level, 6);
    let seven = parse("####### c");
    assert!(seven.iter().all(|r| r.tag != "HEADING"));
}

#[test]
fn nested_document_balances() {
    let records = parse("> - *a* **b**\n> - `c`\n\n| h |\n|---|\n| [l](/u) |\n");
    assert_balanced(&records);
}

#[test]
fn start_end_multisets_match() {
    let records = parse("> - *a*\n\n1. x\n");
    let tags = ["BLOCK_QUOTE", "LIST", "ITEM", "EMPHASIS", "PARAGRAPH"];
    for tag in tags {
        let starts = records.iter().filter(|r| r.typ == "START" && r.tag == tag).count();
        let ends = records.iter().filter(|r| r.typ == "END" && r.tag == tag).count();
        assert_eq!(starts, ends, "unbalanced {}", tag);
    }
}

#[test]
fn text_record_keeps_defaults() {
    let records = parse("plain");
    let text = records.iter().find(|r| r.typ == "TEXT").expect("no TEXT record");
    assert_eq!(text.content, "plain");
    assert!(!text.checked);
    assert_leaf_defaults(text);
}

#[test]
fn fenced_flag_stays_false() {
    let records = parse("# h\n\n```rust\nx\n```\n\n- [x] t\n");
    assert!(records.iter().all(|r| !r.fenced));
}

#[test]
fn empty_input_gives_no_records() {
    assert!(parse("").is_empty());
}

#[test]
fn parse_does_not_echo_input() {
    let records = parse("*em*");
    assert!(records.len() >= 3);
    assert!(records.iter().any(|r| r.tag == "EMPHASIS"));
}
