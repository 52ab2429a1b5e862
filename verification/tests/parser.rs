use hanamark::parser::markdown_to_html;

#[test]
fn test_empty_string() {
    assert_eq!(markdown_to_html(""), "");
}

#[test]
fn test_heading() {
    let html = markdown_to_html("# Hello");
    assert!(html.contains("<h1>Hello</h1>"));
}

#[test]
fn test_bold_and_italic() {
    let html = markdown_to_html("**bold** *italic*");
    assert!(html.contains("<strong>bold</strong>"));
    assert!(html.contains("<em>italic</em>"));
}

#[test]
fn test_code_block() {
    let html = markdown_to_html("```\nlet x = 1;\n```");
    assert!(html.contains("<code>"));
}

#[test]
fn test_inline_code() {
    let html = markdown_to_html("`foo`");
    assert!(html.contains("<code>foo</code>"));
}

#[test]
fn test_gfm_table() {
    let md = "| A | B |\n|---|---|\n| 1 | 2 |";
    let html = markdown_to_html(md);
    assert!(html.contains("<table>"));
    assert!(html.contains("<th>"));
    assert!(html.contains("<td>"));
}

#[test]
fn test_gfm_strikethrough() {
    let html = markdown_to_html("~~strike~~");
    assert!(html.contains("<del>strike</del>"));
}

#[test]
fn test_gfm_tasklist() {
    let html = markdown_to_html("- [x] done\n- [ ] todo");
    assert!(html.contains(r#"type="checkbox""#));
}

#[test]
fn test_gfm_footnote() {
    let md = "text[^1]\n\n[^1]: note";
    let html = markdown_to_html(md);
    assert!(html.contains("footnote") || html.contains("fn1"));
}
