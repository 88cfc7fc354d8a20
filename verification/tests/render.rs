use katsite::render::markdown_to_html;

fn html(input: &str, github_ext: bool, comrak_ext: bool) -> String {
    String::from_utf8(markdown_to_html(input, github_ext, comrak_ext)).unwrap()
}

#[test]
fn plain_renderer_renders_a_heading() {
    assert_eq!(html("# Hi", false, false), "<h1>Hi</h1>\n");
}

#[test]
fn plain_renderer_renders_a_paragraph() {
    assert_eq!(html("plain text", false, false), "<p>plain text</p>\n");
}

#[test]
fn plain_renderer_knows_no_extension() {
    assert_eq!(html("~~gone~~", false, false), "<p>~~gone~~</p>\n");
}

#[test]
fn github_flag_turns_on_strikethrough_and_tables() {
    assert_eq!(html("~~gone~~", true, false), "<p><del>gone</del></p>\n");
    let table = html("| a |\n|---|\n| b |\n", true, false);
    assert!(table.starts_with("<table>"), "{}", table);
}

#[test]
fn github_flag_gives_headings_anchors_with_an_empty_prefix() {
    let heading = html("# Hi", true, false);
    assert!(heading.contains("id=\"hi\""), "{}", heading);
    assert!(!html("# Hi", false, true).contains("id="));
}

#[test]
fn comrak_flag_turns_on_superscript_and_smart_punctuation() {
    assert_eq!(html("e = mc^2^", false, true), "<p>e = mc<sup>2</sup></p>\n");
    assert_eq!(html("e = mc^2^", true, false), "<p>e = mc^2^</p>\n");
    assert_eq!(html("a -- b", false, true), "<p>a – b</p>\n");
}

#[test]
fn extended_renderer_passes_raw_html_through() {
    assert_eq!(html("<b>x</b>", true, true), "<p><b>x</b></p>\n");
    assert_eq!(html("<title>x</title>", true, false), "<title>x</title>\n");
}

#[test]
fn extended_renderer_puts_the_language_on_the_pre_tag() {
    assert_eq!(
        html("```rust\nfn x() {}\n```\n", true, false),
        "<pre lang=\"rust\"><code>fn x() {}\n</code></pre>\n"
    );
}

#[test]
fn extended_renderer_keeps_soft_breaks_soft() {
    assert_eq!(html("a\nb", true, false), "<p>a\nb</p>\n");
}
