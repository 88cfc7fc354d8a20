//! The build job: what happens to one source document between reading it
//! and writing its page.
//!
//! The raw bytes go through the `markdown` chain, are decoded as text and
//! rendered, get the configured boilerplate put before them, and go through
//! the `html` chain. Reading the source and writing the page are the
//! caller's.
use crate::config::{HtmlOptions, RunConfig};
use crate::dispatch::{
    chain_fold, first_fatal, hook_warnings, is_chain_record, run_plugins, HookReport,
};
use crate::plugin::{
    plugin_paths, warning_views, HookInvocation, InvokeOutcome, OutcomeView, PluginSpec,
    PluginWarning, WarningView, HOOK_HTML, HOOK_MARKDOWN,
};
use crate::render::{markdown_to_html, rendered_html, MarkdownOptions};
use crate::paths::{
    holds_separator, join_paths, path_join, path_with_extension, with_extension,
};
use crate::text::decode_text;
use vstd::prelude::*;
use vstd::string::*;
use vstd::utf8::*;

verus! {

/// The unit of work: one source document and the page it becomes.
#[derive(Clone, Debug)]
pub struct BuildJob {
    pub input_path: String,
    pub output_path: String,
}

/// A [`BuildJob`] as plain values.
pub struct JobView {
    pub input_path: Seq<char>,
    pub output_path: Seq<char>,
}

impl View for BuildJob {
    type V = JobView;

    open spec fn view(&self) -> JobView {
        JobView { input_path: self.input_path@, output_path: self.output_path@ }
    }
}

/// The views of a list of jobs, in list order.
pub open spec fn job_views(jobs: Seq<BuildJob>) -> Seq<JobView> {
    Seq::new(jobs.len(), |i: int| jobs[i]@)
}

/// The extension of a page's file name.
pub const PAGE_EXTENSION: &'static str = "html";

/// Where the page of the document at `input_path` is written: under
/// `output_dir`, at the document's own relative path, with the page
/// extension in place of the document's.
pub open spec fn output_path_of(input_path: Seq<char>, output_dir: Seq<char>) -> Seq<char> {
    path_join(output_dir, path_with_extension(input_path, PAGE_EXTENSION@))
}

/// The path of the document at `input_path` with the page extension in
/// place of its own.
pub fn page_path(input_path: &str) -> (path: String)
    ensures
        path@ == path_with_extension(input_path@, PAGE_EXTENSION@),
{
    proof {
        reveal_strlit("html");
        assert(!holds_separator(PAGE_EXTENSION@));
    }
    with_extension(input_path, PAGE_EXTENSION)
}

impl BuildJob {
    /// The job for the document at `input_path`, with its page under
    /// `output_dir`.
    pub fn for_input(input_path: &str, output_dir: &str) -> (job: BuildJob)
        ensures
            job.input_path@ == input_path@,
            job.output_path@ == output_path_of(input_path@, output_dir@),
    {
        let page = page_path(input_path);
        BuildJob {
            input_path: input_path.to_owned(),
            output_path: join_paths(output_dir, page.as_str()),
        }
    }
}

/// The document-type declaration of the boilerplate.
pub const DOCTYPE: &'static str = "<!doctype html>";

/// The viewport meta tag of the boilerplate.
pub const VIEWPORT_META: &'static str =
    "<meta name=viewport content=\"width=device-width,initial-scale=1\">";

/// The bytes that go before a rendered document: the declaration, then the
/// meta tag, each only if its flag is set.
pub open spec fn prelude_of(options: HtmlOptions) -> Seq<u8> {
    (if options.doctype {
        encode_utf8(DOCTYPE@)
    } else {
        Seq::empty()
    }) + (if options.viewport {
        encode_utf8(VIEWPORT_META@)
    } else {
        Seq::empty()
    })
}

/// The page as it stands before the `html` chain: the boilerplate, then the
/// rendering of the text that `source` encodes.
pub open spec fn page_of(source: Seq<u8>, markdown: MarkdownOptions, html: HtmlOptions) -> Seq<u8>
    recommends
        valid_utf8(source),
{
    prelude_of(html) + rendered_html(
        decode_utf8(source),
        markdown.github_extensions,
        markdown.comrak_extensions,
    )
}

/// The two chain hooks of a build job.
#[derive(Clone, Copy, PartialEq, Eq, Structural, Debug)]
pub enum ChainHook {
    Markdown,
    Html,
}

/// How a build job ended.
#[derive(Clone, Copy, PartialEq, Eq, Structural, Debug)]
pub enum JobStatus {
    /// The page was built and is to be written.
    Built,
    /// The source, as the `markdown` chain left it, is not UTF-8 text.
    InvalidText,
    /// The plugin at this index of the list could not be started at this
    /// hook.
    PluginUnavailable { hook: ChainHook, plugin: usize },
}

/// What a build job hands back.
#[derive(Clone, Debug)]
pub struct JobReport {
    pub status: JobStatus,
    /// The page, where the status is `Built`; empty otherwise.
    pub bytes: Vec<u8>,
    /// The warnings of the `markdown` chain, then those of the `html` chain.
    pub warnings: Vec<PluginWarning>,
}

/// How a job ends whose `markdown` chain had the outcomes `md` and whose
/// `html` chain had the outcomes `html`, from the raw bytes `raw`.
pub open spec fn job_status(raw: Seq<u8>, md: Seq<OutcomeView>, html: Seq<OutcomeView>) -> JobStatus {
    match first_fatal(md) {
        Some(i) => JobStatus::PluginUnavailable { hook: ChainHook::Markdown, plugin: i as usize },
        None => if !valid_utf8(chain_fold(raw, md)) {
            JobStatus::InvalidText
        } else {
            match first_fatal(html) {
                Some(i) => JobStatus::PluginUnavailable { hook: ChainHook::Html, plugin: i as usize },
                None => JobStatus::Built,
            }
        },
    }
}

/// The page of a job that was built: what the `html` chain made of the page
/// that the rendering of the `markdown` chain's result began as.
pub open spec fn job_page(
    raw: Seq<u8>,
    md: Seq<OutcomeView>,
    html: Seq<OutcomeView>,
    markdown: MarkdownOptions,
    html_options: HtmlOptions,
) -> Seq<u8> {
    chain_fold(page_of(chain_fold(raw, md), markdown, html_options), html)
}

/// The warnings of a job: those of its `markdown` chain, then those of its
/// `html` chain.
pub open spec fn job_warnings(
    plugins: Seq<Seq<char>>,
    md: Seq<OutcomeView>,
    html: Seq<OutcomeView>,
) -> Seq<WarningView> {
    hook_warnings(plugins, HOOK_MARKDOWN@, md) + hook_warnings(plugins, HOOK_HTML@, html)
}

/// Whether `md` and `html` can be the records of the two chains of one job:
/// `md` is a record of the `markdown` chain from the raw bytes, and `html`
/// is a record of the `html` chain from the page that the result of `md`
/// renders to, or is empty where the job ended before that chain.
pub open spec fn is_job_record<F: Fn(HookInvocation) -> InvokeOutcome>(
    invoke: &F,
    plugins: Seq<PluginSpec>,
    markdown: MarkdownOptions,
    html_options: HtmlOptions,
    source_name: Seq<char>,
    raw: Seq<u8>,
    md: Seq<OutcomeView>,
    html: Seq<OutcomeView>,
) -> bool {
    &&& is_chain_record(invoke, plugins, HOOK_MARKDOWN@, source_name, raw, md)
    &&& if first_fatal(md) is None && valid_utf8(chain_fold(raw, md)) {
        is_chain_record(
            invoke,
            plugins,
            HOOK_HTML@,
            source_name,
            page_of(chain_fold(raw, md), markdown, html_options),
            html,
        )
    } else {
        html.len() == 0
    }
}

/// The boilerplate bytes for `options`.
pub fn prelude(options: &HtmlOptions) -> (bytes: Vec<u8>)
    ensures
        bytes@ == prelude_of(*options),
{
    let mut bytes: Vec<u8> = Vec::new();
    if options.doctype {
        bytes.extend_from_slice(DOCTYPE.as_bytes());
    }
    if options.viewport {
        bytes.extend_from_slice(VIEWPORT_META.as_bytes());
    }
    assert(bytes@ =~= prelude_of(*options));
    bytes
}

/// Puts the boilerplate for `options` before `rendered`.
pub fn with_prelude(options: &HtmlOptions, rendered: Vec<u8>) -> (page: Vec<u8>)
    ensures
        page@ == prelude_of(*options) + rendered@,
{
    let mut page = prelude(options);
    let mut rendered = rendered;
    page.append(&mut rendered);
    page
}

/// Decodes and renders the source of a document as the `markdown` chain left
/// it, and puts the boilerplate before it. `None` where the source is not
/// valid UTF-8 text; no replacement character is slipped in for a bad byte.
pub fn render_source(source: Vec<u8>, markdown: &MarkdownOptions, html: &HtmlOptions) -> (page:
    Option<Vec<u8>>)
    ensures
        page is Some <==> valid_utf8(source@),
        page matches Some(bytes) ==> bytes@ == page_of(source@, *markdown, *html),
{
    let ghost source_bytes = source@;
    match decode_text(source) {
        Some(text) => {
            proof {
                encode_utf8_decode_utf8(text@);
            }
            let rendered = markdown_to_html(
                text.as_str(),
                markdown.github_extensions,
                markdown.comrak_extensions,
            );
            Some(with_prelude(html, rendered))
        },
        None => None,
    }
}

/// Builds the page of one document from its raw bytes.
///
/// The `markdown` chain runs over `input` with `filename` as every plugin's
/// extra argument. Its result is decoded as UTF-8 text, rendered under the
/// configured Markdown flags, and has the configured boilerplate put before
/// it. The `html` chain runs over that, again with `filename`. Both chains
/// use the configured plugin list in its order.
///
/// The job ends early, with no page, where a plugin cannot be started or
/// where the `markdown` chain leaves bytes that are not UTF-8 text. Plugins
/// that merely fail are warned about, in the order in which they ran.
pub fn parse_to_file<F: Fn(HookInvocation) -> InvokeOutcome>(
    input: Vec<u8>,
    filename: &str,
    config: &RunConfig,
    invoke: &F,
) -> (report: JobReport)
    requires
        forall|asked: HookInvocation| call_requires(invoke, (asked,)),
    ensures
        exists|md: Seq<OutcomeView>, html: Seq<OutcomeView>|
            {
                &&& #[trigger] is_job_record(
                    invoke,
                    config.plugins_list@,
                    config.markdown,
                    config.html,
                    filename@,
                    input@,
                    md,
                    html,
                )
                &&& report.status == job_status(input@, md, html)
                &&& report.bytes@ == if report.status is Built {
                    job_page(input@, md, html, config.markdown, config.html)
                } else {
                    Seq::empty()
                }
                &&& warning_views(report.warnings@) == job_warnings(
                    plugin_paths(config.plugins_list@),
                    md,
                    html,
                )
            },
        config.plugins_list@.len() == 0 ==> {
            &&& report.warnings@.len() == 0
            &&& report.status == if valid_utf8(input@) {
                JobStatus::Built
            } else {
                JobStatus::InvalidText
            }
            &&& valid_utf8(input@) ==> report.bytes@ == page_of(
                input@,
                config.markdown,
                config.html,
            )
        },
{
    let ghost raw = input@;
    let ghost plugins = config.plugins_list@;
    let ghost paths = plugin_paths(plugins);
    let ghost none: Seq<OutcomeView> = Seq::empty();
    let mut buffer = input;
    let HookReport { warnings: md_warnings, unavailable } = run_plugins(
        &mut buffer,
        HOOK_MARKDOWN,
        filename,
        &config.plugins_list,
        invoke,
    );
    let ghost md: Seq<OutcomeView> = choose|o: Seq<OutcomeView>|
        {
            &&& #[trigger] is_chain_record(invoke, plugins, HOOK_MARKDOWN@, filename@, raw, o)
            &&& buffer@ == chain_fold(raw, o)
            &&& warning_views(md_warnings@) == hook_warnings(paths, HOOK_MARKDOWN@, o)
            &&& match unavailable {
                Some(i) => first_fatal(o) == Some(i as int),
                None => first_fatal(o) is None,
            }
        };
    proof {
        assert(hook_warnings(paths, HOOK_HTML@, none) =~= Seq::<WarningView>::empty());
        assert(warning_views(md_warnings@) + Seq::<WarningView>::empty() =~= warning_views(
            md_warnings@,
        ));
    }
    if let Some(plugin) = unavailable {
        proof {
            assert(is_job_record(
                invoke,
                plugins,
                config.markdown,
                config.html,
                filename@,
                raw,
                md,
                none,
            ));
        }
        return JobReport {
            status: JobStatus::PluginUnavailable { hook: ChainHook::Markdown, plugin },
            bytes: Vec::new(),
            warnings: md_warnings,
        };
    }
    let mut page = match render_source(buffer, &config.markdown, &config.html) {
        Some(page) => page,
        None => {
            proof {
                assert(is_job_record(
                    invoke,
                    plugins,
                    config.markdown,
                    config.html,
                    filename@,
                    raw,
                    md,
                    none,
                ));
            }
            return JobReport {
                status: JobStatus::InvalidText,
                bytes: Vec::new(),
                warnings: md_warnings,
            };
        },
    };
    let ghost start = page@;
    let HookReport { warnings: html_warnings, unavailable } = run_plugins(
        &mut page,
        HOOK_HTML,
        filename,
        &config.plugins_list,
        invoke,
    );
    let ghost html: Seq<OutcomeView> = choose|o: Seq<OutcomeView>|
        {
            &&& #[trigger] is_chain_record(invoke, plugins, HOOK_HTML@, filename@, start, o)
            &&& page@ == chain_fold(start, o)
            &&& warning_views(html_warnings@) == hook_warnings(paths, HOOK_HTML@, o)
            &&& match unavailable {
                Some(i) => first_fatal(o) == Some(i as int),
                None => first_fatal(o) is None,
            }
        };
    let mut warnings = md_warnings;
    let mut html_warnings = html_warnings;
    let ghost first = warnings@;
    let ghost second = html_warnings@;
    warnings.append(&mut html_warnings);
    proof {
        assert(warning_views(warnings@) =~= warning_views(first) + warning_views(second));
        assert(is_job_record(
            invoke,
            plugins,
            config.markdown,
            config.html,
            filename@,
            raw,
            md,
            html,
        ));
    }
    match unavailable {
        Some(plugin) => JobReport {
            status: JobStatus::PluginUnavailable { hook: ChainHook::Html, plugin },
            bytes: Vec::new(),
            warnings,
        },
        None => JobReport { status: JobStatus::Built, bytes: page, warnings },
    }
}

/// With no plugins, both chains of a job are pass-throughs: whatever records
/// the job may have, a job on well-formed text ends `Built`, with no
/// warning, and its page is the boilerplate followed by the renderer's
/// output; with both boilerplate flags off it is the renderer's output and
/// nothing else.
pub proof fn lemma_no_plugins_page_is_rendering<F: Fn(HookInvocation) -> InvokeOutcome>(
    invoke: &F,
    plugins: Seq<PluginSpec>,
    markdown: MarkdownOptions,
    html_options: HtmlOptions,
    source_name: Seq<char>,
    raw: Seq<u8>,
    md: Seq<OutcomeView>,
    html: Seq<OutcomeView>,
)
    requires
        plugins.len() == 0,
        valid_utf8(raw),
        is_job_record(invoke, plugins, markdown, html_options, source_name, raw, md, html),
    ensures
        job_status(raw, md, html) == JobStatus::Built,
        job_warnings(plugin_paths(plugins), md, html).len() == 0,
        job_page(raw, md, html, markdown, html_options) == prelude_of(html_options)
            + rendered_html(
            decode_utf8(raw),
            markdown.github_extensions,
            markdown.comrak_extensions,
        ),
        !html_options.doctype && !html_options.viewport ==> job_page(
            raw,
            md,
            html,
            markdown,
            html_options,
        ) == rendered_html(decode_utf8(raw), markdown.github_extensions, markdown.comrak_extensions),
{
    assert(md.len() == 0);
    assert(html.len() == 0);
    if !html_options.doctype && !html_options.viewport {
        assert(prelude_of(html_options) + rendered_html(
            decode_utf8(raw),
            markdown.github_extensions,
            markdown.comrak_extensions,
        ) =~= rendered_html(
            decode_utf8(raw),
            markdown.github_extensions,
            markdown.comrak_extensions,
        ));
    }
}

} // verus!
