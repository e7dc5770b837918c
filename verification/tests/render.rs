use md_events::html;

#[test]
fn bold_scenario() {
    let out = html("**bold**");
    assert!(out.contains("<strong>bold</strong>"), "got: {}", out);
}

#[test]
fn rendering_is_idempotent() {
    let input = "# h\n\n> *a* **b** `c`\n\n- [x] t\n\n| x |\n|---|\n| y |\n";
    let first = html(input);
    let second = html(input);
    assert_eq!(first, second);
}

#[test]
fn heading_renders_as_h1() {
    let out = html("# Hi");
    assert!(out.contains("<h1>Hi</h1>"), "got: {}", out);
}

#[test]
fn table_extension_renders_table_markup() {
    let out = html("| a |\n|---|\n| 1 |");
    assert!(out.contains("<table"), "got: {}", out);
}

#[test]
fn strikethrough_extension_renders_del_markup() {
    let out = html("~~x~~");
    assert!(out.contains("<del>x</del>"), "got: {}", out);
}

#[test]
fn text_is_escaped() {
    let out = html("a < b & c");
    assert!(out.contains("&lt;"), "got: {}", out);
    assert!(out.contains("&amp;"), "got: {}", out);
}

#[test]
fn render_does_not_echo_input() {
    let input = "**bold**";
    let out = html(input);
    assert_ne!(out, input);
}

#[test]
fn empty_input_renders_empty() {
    assert_eq!(html(""), "");
}
