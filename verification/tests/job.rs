use katsite::config::{Files, HtmlOptions, InvalidTextPolicy, RunConfig};
use katsite::job::{
    parse_to_file, prelude, render_source, with_prelude, ChainHook, JobStatus, DOCTYPE,
    VIEWPORT_META,
};
use katsite::plugin::{HookInvocation, HookResult, InvokeOutcome, PluginSpec};
use katsite::render::{markdown_to_html, MarkdownOptions};
use std::cell::RefCell;

const BOILERPLATE: &str =
    "<!doctype html><meta name=viewport content=\"width=device-width,initial-scale=1\">";

fn config(plugins: &[&str], doctype: bool, viewport: bool) -> RunConfig {
    RunConfig {
        worker_count: None,
        markdown: MarkdownOptions { github_extensions: false, comrak_extensions: false },
        html: HtmlOptions { doctype, viewport },
        plugins_list: plugins.iter().map(|name| PluginSpec::new(name)).collect(),
        files: Files { input_glob: "./*.md".to_string(), output_dir: ".".to_string() },
        invalid_text: InvalidTextPolicy::AbortRun,
    }
}

fn answered(exit_success: bool, output: &[u8]) -> InvokeOutcome {
    InvokeOutcome::Exited(HookResult { exit_success, output: output.to_vec() })
}

fn no_plugin(_asked: HookInvocation) -> InvokeOutcome {
    panic!("no plugin is configured")
}

#[test]
fn boilerplate_follows_its_flags() {
    assert_eq!(prelude(&HtmlOptions { doctype: false, viewport: false }), b"");
    assert_eq!(prelude(&HtmlOptions { doctype: true, viewport: false }), DOCTYPE.as_bytes());
    assert_eq!(
        prelude(&HtmlOptions { doctype: false, viewport: true }),
        VIEWPORT_META.as_bytes()
    );
    assert_eq!(
        prelude(&HtmlOptions { doctype: true, viewport: true }),
        BOILERPLATE.as_bytes()
    );
    assert_eq!(
        with_prelude(&HtmlOptions { doctype: true, viewport: false }, b"<p>x</p>".to_vec()),
        b"<!doctype html><p>x</p>"
    );
}

#[test]
fn source_that_is_not_text_is_not_rendered() {
    let markdown = MarkdownOptions { github_extensions: false, comrak_extensions: false };
    let html = HtmlOptions { doctype: false, viewport: false };
    assert_eq!(render_source(vec![0x66, 0xff, 0x6f], &markdown, &html), None);
    assert_eq!(render_source(vec![0xc3], &markdown, &html), None);
    assert_eq!(
        render_source("caf\u{e9}".as_bytes().to_vec(), &markdown, &html),
        Some("<p>caf\u{e9}</p>\n".as_bytes().to_vec())
    );
    assert_eq!(render_source(Vec::new(), &markdown, &html), Some(Vec::new()));
}

#[test]
fn without_plugins_the_page_is_the_rendering() {
    let config = config(&[], false, false);
    for source in ["# Hi", "plain text", "", "* a\n* b\n", "<b>raw</b>"] {
        let report = parse_to_file(source.as_bytes().to_vec(), "a.md", &config, &no_plugin);
        assert_eq!(report.status, JobStatus::Built);
        assert!(report.warnings.is_empty());
        assert_eq!(report.bytes, markdown_to_html(source, false, false));
    }
}

#[test]
fn two_documents_without_plugins_or_extensions() {
    let config = config(&[], true, true);
    let a = parse_to_file(b"# Hi".to_vec(), "a.md", &config, &no_plugin);
    let b = parse_to_file(b"plain text".to_vec(), "b.md", &config, &no_plugin);
    assert_eq!(a.status, JobStatus::Built);
    assert_eq!(b.status, JobStatus::Built);
    assert!(a.warnings.is_empty());
    assert!(b.warnings.is_empty());
    assert_eq!(String::from_utf8(a.bytes).unwrap(), format!("{}<h1>Hi</h1>\n", BOILERPLATE));
    assert_eq!(
        String::from_utf8(b.bytes).unwrap(),
        format!("{}<p>plain text</p>\n", BOILERPLATE)
    );
}

#[test]
fn footer_plugin_on_the_html_hook_ends_every_page() {
    let footer = b"<footer>built</footer>";
    let invoke = |asked: HookInvocation| -> InvokeOutcome {
        if asked.hook_name == "html" {
            let mut output = asked.input.unwrap().to_vec();
            output.extend_from_slice(footer);
            answered(true, &output)
        } else {
            answered(true, b"")
        }
    };
    let config = config(&["footer"], false, false);
    for (name, source) in [("a.md", "# Hi"), ("b.md", "plain text"), ("c.md", "")] {
        let report = parse_to_file(source.as_bytes().to_vec(), name, &config, &invoke);
        assert_eq!(report.status, JobStatus::Built);
        assert!(report.warnings.is_empty());
        assert!(report.bytes.ends_with(footer));
        let mut expected = markdown_to_html(source, false, false);
        expected.extend_from_slice(footer);
        assert_eq!(report.bytes, expected);
    }
}

#[test]
fn markdown_hook_runs_before_rendering_and_html_hook_after() {
    let calls = RefCell::new(Vec::new());
    let invoke = |asked: HookInvocation| -> InvokeOutcome {
        calls.borrow_mut().push((
            asked.plugin.path.clone(),
            asked.hook_name.to_string(),
            asked.input.unwrap().to_vec(),
            asked.extra_arg.unwrap().to_string(),
        ));
        match (asked.plugin.path.as_str(), asked.hook_name) {
            ("title", "markdown") => answered(true, b"# Title"),
            ("wrap", "html") => {
                let mut page = b"<main>".to_vec();
                page.extend_from_slice(asked.input.unwrap());
                page.extend_from_slice(b"</main>");
                answered(true, &page)
            }
            _ => answered(true, b""),
        }
    };
    let config = config(&["title", "wrap"], true, false);
    let report = parse_to_file(b"ignored".to_vec(), "docs/x.md", &config, &invoke);
    assert_eq!(report.status, JobStatus::Built);
    assert_eq!(report.bytes, b"<main><!doctype html><h1>Title</h1>\n</main>");
    let page = b"<!doctype html><h1>Title</h1>\n".to_vec();
    let file = "docs/x.md".to_string();
    assert_eq!(
        *calls.borrow(),
        vec![
            ("title".to_string(), "markdown".to_string(), b"ignored".to_vec(), file.clone()),
            ("wrap".to_string(), "markdown".to_string(), b"# Title".to_vec(), file.clone()),
            ("title".to_string(), "html".to_string(), page.clone(), file.clone()),
            ("wrap".to_string(), "html".to_string(), page, file),
        ]
    );
}

#[test]
fn warnings_of_both_chains_come_in_the_order_they_arose() {
    let invoke = |asked: HookInvocation| -> InvokeOutcome {
        match (asked.plugin.path.as_str(), asked.hook_name) {
            ("a", "html") => answered(false, b""),
            ("b", "markdown") => answered(false, b"x"),
            ("b", "html") => InvokeOutcome::TransportFailed,
            _ => answered(true, b""),
        }
    };
    let config = config(&["a", "b"], false, false);
    let report = parse_to_file(b"text".to_vec(), "a.md", &config, &invoke);
    assert_eq!(report.status, JobStatus::Built);
    assert_eq!(report.bytes, b"<p>text</p>\n");
    let warned: Vec<(String, String)> =
        report.warnings.iter().map(|w| (w.plugin.clone(), w.hook_name.clone())).collect();
    assert_eq!(
        warned,
        vec![
            ("b".to_string(), "markdown".to_string()),
            ("a".to_string(), "html".to_string()),
            ("b".to_string(), "html".to_string()),
        ]
    );
}

#[test]
fn plugin_that_leaves_invalid_text_ends_the_job() {
    let calls = RefCell::new(0);
    let invoke = |_asked: HookInvocation| -> InvokeOutcome {
        *calls.borrow_mut() += 1;
        answered(true, &[0xff, 0xfe])
    };
    let config = config(&["binary"], true, true);
    let report = parse_to_file(b"text".to_vec(), "a.md", &config, &invoke);
    assert_eq!(report.status, JobStatus::InvalidText);
    assert!(report.bytes.is_empty());
    assert!(report.warnings.is_empty());
    assert_eq!(*calls.borrow(), 1);
}

#[test]
fn raw_bytes_that_are_not_text_end_the_job_without_plugins() {
    let report = parse_to_file(vec![0x80], "a.md", &config(&[], true, true), &no_plugin);
    assert_eq!(report.status, JobStatus::InvalidText);
    assert!(report.bytes.is_empty());
}

#[test]
fn plugin_that_cannot_be_started_ends_the_job() {
    let invoke = |asked: HookInvocation| -> InvokeOutcome {
        match (asked.plugin.path.as_str(), asked.hook_name) {
            ("late", "html") => InvokeOutcome::SpawnFailed,
            ("early", "markdown") => answered(false, b""),
            _ => answered(true, b""),
        }
    };
    let config = config(&["early", "late"], false, false);
    let report = parse_to_file(b"text".to_vec(), "a.md", &config, &invoke);
    assert_eq!(
        report.status,
        JobStatus::PluginUnavailable { hook: ChainHook::Html, plugin: 1 }
    );
    assert!(report.bytes.is_empty());
    assert_eq!(report.warnings.len(), 1);
    assert_eq!(report.warnings[0].plugin, "early");

    let missing = |_asked: HookInvocation| -> InvokeOutcome { InvokeOutcome::SpawnFailed };
    let report = parse_to_file(b"text".to_vec(), "a.md", &config, &missing);
    assert_eq!(
        report.status,
        JobStatus::PluginUnavailable { hook: ChainHook::Markdown, plugin: 0 }
    );
}
