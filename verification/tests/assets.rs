use katsite::compress::{
    compress_file, compressed_path, keep_if_smaller, CompressionMode, CompressionSettings,
};
use katsite::essentials::{
    icon_targets, load_additional_templates, plugin_command, usage_exit_code, PluginCommand,
};
use katsite::job::BuildJob;
use katsite::minify::{finish_page, minifier_answers};
use std::io::Read;

fn inflate(stream: &[u8]) -> Vec<u8> {
    let mut plain = Vec::new();
    brotli::Decompressor::new(stream, 4096).read_to_end(&mut plain).unwrap();
    plain
}

#[test]
fn compressed_copy_is_kept_when_it_is_smaller() {
    let input = "<p>the same words, the same words, the same words</p>\n".repeat(40);
    for mode in [CompressionMode::Text, CompressionMode::Generic] {
        let copy = compress_file(input.as_bytes(), mode).unwrap();
        assert!(copy.len() < input.len());
        assert_eq!(inflate(&copy), input.as_bytes());
    }
}

#[test]
fn compressed_copy_is_dropped_when_it_is_larger() {
    assert_eq!(compress_file(b"", CompressionMode::Text), None);
    assert_eq!(compress_file(b"a", CompressionMode::Text), None);
    assert_eq!(compress_file(b"ab", CompressionMode::Generic), None);
}

#[test]
fn copy_of_the_same_length_is_kept() {
    assert_eq!(keep_if_smaller(3, vec![1, 2, 3]), Some(vec![1, 2, 3]));
    assert_eq!(keep_if_smaller(3, vec![1, 2]), Some(vec![1, 2]));
    assert_eq!(keep_if_smaller(3, vec![1, 2, 3, 4]), None);
    assert_eq!(keep_if_smaller(0, Vec::new()), Some(Vec::new()));
    assert_eq!(keep_if_smaller(0, vec![6]), None);
}

#[test]
fn compression_settings() {
    let settings = CompressionSettings::for_input(CompressionMode::Text, 1234);
    assert_eq!(settings.mode, CompressionMode::Text);
    assert_eq!(settings.quality, 11);
    assert_eq!(settings.window_bits, 24);
    assert_eq!(settings.size_hint, 1234);
    assert_eq!(settings.hasher_block_bits, 10);
    assert_eq!(settings.buffer_size, 4096);
}

#[test]
fn finished_page_is_minified_and_compressed_as_configured() {
    let rendered = b"<p>  Hello, world!  </p>".to_vec();
    let plain = finish_page(rendered.clone(), false, false);
    assert_eq!(plain.html, rendered);
    assert_eq!(plain.compressed, None);
    let small = finish_page(rendered.clone(), true, false);
    assert_eq!(small.html, b"<p>Hello, world!");
    assert_eq!(small.compressed, None);
    let tiny = finish_page(rendered, true, true);
    assert_eq!(tiny.html, b"<p>Hello, world!");
    assert_eq!(tiny.compressed, None, "a copy larger than the page is dropped");
    let long = "<p>the same words, the same words, the same words</p>\n".repeat(40);
    let both = finish_page(long.clone().into_bytes(), false, true);
    assert_eq!(both.html, long.as_bytes());
    assert_eq!(inflate(&both.compressed.unwrap()), long.as_bytes());
}

#[test]
fn minifier_plugin_answers_the_html_hook_only() {
    assert!(minifier_answers(Some("html")));
    for hook in [Some("markdown"), Some("init"), Some("postinit"), Some("HTML"), Some(""), None] {
        assert!(!minifier_answers(hook));
    }
}

#[test]
fn compressed_copy_goes_beside_the_file() {
    assert_eq!(compressed_path("out/style.css").as_deref(), Some("out/style.css.br"));
    assert_eq!(compressed_path("index.html").as_deref(), Some("index.html.br"));
    assert_eq!(compressed_path("a.tar.gz").as_deref(), Some("a.tar.gz.br"));
    assert_eq!(compressed_path("out/feed").as_deref(), Some("out/feed..br"));
    assert_eq!(compressed_path("..").as_deref(), Some(".."));
}

#[test]
fn extension_with_a_separator_names_no_compressed_copy() {
    assert_eq!(compressed_path("out/a.b\\c"), None);
    assert_eq!(compressed_path("a.\\"), None);
}

#[test]
fn plugin_commands() {
    assert_eq!(plugin_command(Some("markdown")), Some(PluginCommand::Markdown));
    assert_eq!(plugin_command(Some("html")), Some(PluginCommand::Html));
    assert_eq!(plugin_command(Some("init")), Some(PluginCommand::AsyncInit));
    assert_eq!(plugin_command(Some("asyncinit")), Some(PluginCommand::AsyncInit));
    assert_eq!(plugin_command(Some("postinit")), Some(PluginCommand::PostInit));
    assert_eq!(plugin_command(Some("")), None);
    assert_eq!(plugin_command(Some("Markdown")), None);
    assert_eq!(plugin_command(Some("--help")), None);
    assert_eq!(plugin_command(None), None);
    assert_eq!(usage_exit_code(), 64);
}

#[test]
fn icons_made_of_the_favicon() {
    let [touch, tab] = icon_targets();
    assert_eq!((touch.file_name, touch.edge, touch.colors), ("apple-touch-icon.png", 192, 64));
    assert_eq!((tab.file_name, tab.edge, tab.colors), ("favicon.png", 48, 16));
    assert_eq!(touch.sample_factor, 1);
    assert_eq!(tab.sample_factor, 1);
}

#[test]
fn templates_are_rendered_by_stem_and_the_layout_is_left_out() {
    let files = vec![
        "templates/feed.xml.liquid".to_string(),
        "templates/layout.liquid".to_string(),
        "sitemap.liquid".to_string(),
        "..".to_string(),
    ];
    let jobs = load_additional_templates(&files, "layout.liquid", "out");
    let planned: Vec<(&str, &str)> = jobs
        .iter()
        .map(|job| (job.template_path.as_str(), job.output_path.as_str()))
        .collect();
    assert_eq!(
        planned,
        vec![("templates/feed.xml.liquid", "out/feed.xml"), ("sitemap.liquid", "out/sitemap")]
    );
    let all = load_additional_templates(&files, "templates/layout.liquid", "out");
    assert_eq!(all.len(), 3, "the layout is known by its file name alone");
    assert!(load_additional_templates(&Vec::new(), "layout.liquid", "out").is_empty());
}

#[test]
fn page_goes_under_the_output_directory_with_the_page_extension() {
    let job = BuildJob::for_input("./docs/a.md", "out");
    assert_eq!(job.input_path, "./docs/a.md");
    assert_eq!(job.output_path, "out/./docs/a.html");
    assert_eq!(BuildJob::for_input("a.md", ".").output_path, "./a.html");
    assert_eq!(BuildJob::for_input("notes", "site").output_path, "site/notes.html");
    assert_eq!(BuildJob::for_input("a.b.md", "site").output_path, "site/a.b.html");
    assert_eq!(BuildJob::for_input("/abs/a.md", "site").output_path, "/abs/a.html");
}
