//! The configuration of one run. It is loaded once, before anything is
//! started, and only read from then on.
use crate::plugin::PluginSpec;
use crate::render::MarkdownOptions;
use vstd::prelude::*;
use vstd::string::*;

verus! {

/// Which parts of the fixed HTML boilerplate go before a rendered document.
#[derive(Clone, Copy, PartialEq, Eq, Structural, Debug)]
pub struct HtmlOptions {
    /// The document-type declaration.
    pub doctype: bool,
    /// The meta tag that fits the page to a mobile viewport.
    pub viewport: bool,
}

/// What becomes of a document whose source, as the `markdown` hook left it,
/// is not valid UTF-8 text.
#[derive(Clone, Copy, PartialEq, Eq, Structural, Debug)]
pub enum InvalidTextPolicy {
    /// The document is left out with a warning and the run goes on.
    SkipFile,
    /// The run ends with a data error.
    AbortRun,
}

/// Where documents are read from and written to.
#[derive(Clone, Debug)]
pub struct Files {
    /// The glob pattern that selects the source documents.
    pub input_glob: String,
    /// The directory that the output is written under.
    pub output_dir: String,
}

/// Everything a run is configured with.
#[derive(Clone, Debug)]
pub struct RunConfig {
    /// How many documents may be in work at once; `None` leaves it to the
    /// host's parallelism.
    pub worker_count: Option<usize>,
    pub markdown: MarkdownOptions,
    pub html: HtmlOptions,
    /// The plugins, in the order in which every chain hook runs them.
    pub plugins_list: Vec<PluginSpec>,
    pub files: Files,
    pub invalid_text: InvalidTextPolicy,
}

/// The input pattern of the default configuration.
pub const DEFAULT_INPUT_GLOB: &'static str = "./*.md";

/// The output directory of the default configuration.
pub const DEFAULT_OUTPUT_DIR: &'static str = ".";

impl HtmlOptions {
    /// The boilerplate for a plugin list, where the configuration does not
    /// say: all of it when there are no plugins, none of it when there are,
    /// since then a plugin is expected to lay the page out.
    pub fn for_plugins(list: &Vec<PluginSpec>) -> (options: HtmlOptions)
        ensures
            options.doctype == (list@.len() == 0),
            options.viewport == (list@.len() == 0),
    {
        let bare = list.len() == 0;
        HtmlOptions { doctype: bare, viewport: bare }
    }
}

impl Default for RunConfig {
    /// The configuration that a site starts from: no plugins, every `.md`
    /// file of the working directory, output beside the input, no Markdown
    /// extension, the full boilerplate, and a run that ends on invalid text.
    fn default() -> (config: RunConfig)
        ensures
            config.worker_count is None,
            config.markdown == (MarkdownOptions {
                github_extensions: false,
                comrak_extensions: false,
            }),
            config.html == (HtmlOptions { doctype: true, viewport: true }),
            config.plugins_list@.len() == 0,
            config.files.input_glob@ == DEFAULT_INPUT_GLOB@,
            config.files.output_dir@ == DEFAULT_OUTPUT_DIR@,
            config.invalid_text == InvalidTextPolicy::AbortRun,
    {
        RunConfig {
            worker_count: None,
            markdown: MarkdownOptions { github_extensions: false, comrak_extensions: false },
            html: HtmlOptions { doctype: true, viewport: true },
            plugins_list: Vec::new(),
            files: Files {
                input_glob: String::from_str(DEFAULT_INPUT_GLOB),
                output_dir: String::from_str(DEFAULT_OUTPUT_DIR),
            },
            invalid_text: InvalidTextPolicy::AbortRun,
        }
    }
}

/// The size of the worker pool: the configured count where one is set and is
/// not zero, the host's parallelism otherwise, and never less than one.
pub open spec fn pool_size(configured: Option<usize>, host_parallelism: usize) -> usize {
    match configured {
        Some(count) if count > 0 => count,
        _ => if host_parallelism > 0 {
            host_parallelism
        } else {
            1
        },
    }
}

/// The size of the worker pool for a configured count and the number of
/// threads that the host can run side by side.
pub fn effective_workers(configured: Option<usize>, host_parallelism: usize) -> (workers: usize)
    ensures
        workers == pool_size(configured, host_parallelism),
        workers >= 1,
{
    match configured {
        Some(count) if count > 0 => count,
        _ => if host_parallelism > 0 {
            host_parallelism
        } else {
            1
        },
    }
}

} // verus!
