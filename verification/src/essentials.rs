//! What the bundled plugins decide before they touch a file: which command
//! a plugin was started for, which icons are made of a site's favicon, and
//! which templates are rendered beside the pages.
use crate::error::code_usage;
use crate::paths::{
    file_name_of, file_stem_of, join_paths, path_file_name, path_file_stem, path_join,
};
use crate::plugin::{HOOK_HTML, HOOK_INIT, HOOK_MARKDOWN, HOOK_POSTINIT};
use crate::text::str_eq;
use vstd::prelude::*;

verus! {

/// A second name of the `init` hook, which says that the hook runs beside
/// the build.
pub const HOOK_ASYNC_INIT: &'static str = "asyncinit";

/// What a bundled plugin is started for.
#[derive(Clone, Copy, PartialEq, Eq, Structural, Debug)]
pub enum PluginCommand {
    /// Hand the document's source back as it came.
    Markdown,
    /// Write nothing, and so leave the page as it is.
    Html,
    /// Build the site's assets while the documents are built.
    AsyncInit,
    /// Lay the built pages out.
    PostInit,
}

/// The command for a plugin's first argument: one for each hook, the `init`
/// hook under either of its names, and none for anything else or for no
/// argument at all.
pub open spec fn command_of(argument: Option<Seq<char>>) -> Option<PluginCommand> {
    match argument {
        Some(name) => if name == HOOK_MARKDOWN@ {
            Some(PluginCommand::Markdown)
        } else if name == HOOK_HTML@ {
            Some(PluginCommand::Html)
        } else if name == HOOK_INIT@ || name == HOOK_ASYNC_INIT@ {
            Some(PluginCommand::AsyncInit)
        } else if name == HOOK_POSTINIT@ {
            Some(PluginCommand::PostInit)
        } else {
            None
        },
        None => None,
    }
}

/// Reads a plugin's first argument. `None` means that the program was not
/// started as a plugin; it then says so and exits with
/// [`usage_exit_code`].
pub fn plugin_command(argument: Option<&str>) -> (command: Option<PluginCommand>)
    ensures
        command == command_of(
            match argument {
                Some(name) => Some(name@),
                None => None,
            },
        ),
{
    match argument {
        Some(name) => {
            if str_eq(name, HOOK_MARKDOWN) {
                Some(PluginCommand::Markdown)
            } else if str_eq(name, HOOK_HTML) {
                Some(PluginCommand::Html)
            } else if str_eq(name, HOOK_INIT) || str_eq(name, HOOK_ASYNC_INIT) {
                Some(PluginCommand::AsyncInit)
            } else if str_eq(name, HOOK_POSTINIT) {
                Some(PluginCommand::PostInit)
            } else {
                None
            }
        },
        None => None,
    }
}

/// The status that a plugin exits with when it was not started as one.
pub fn usage_exit_code() -> (code: i32)
    ensures
        code == 64,
{
    code_usage()
}

/// One icon that is made of a site's favicon.
#[derive(Clone, Copy, Debug)]
pub struct IconTarget {
    /// The icon's file name under the output directory.
    pub file_name: &'static str,
    /// The length in pixels of each side of the icon.
    pub edge: u32,
    /// How many colours the icon's palette is cut down to.
    pub colors: usize,
    /// How much of the image is sampled when the palette is chosen: 1 is
    /// all of it.
    pub sample_factor: i32,
}

/// The file name of the icon for home screens.
pub const TOUCH_ICON: &'static str = "apple-touch-icon.png";

/// The file name of the icon for browser tabs.
pub const FAVICON: &'static str = "favicon.png";

/// The icons that are made of a site's favicon: a large one for home
/// screens and a small one for browser tabs, each with a palette chosen
/// from the whole image.
pub fn icon_targets() -> (targets: [IconTarget; 2])
    ensures
        targets[0].file_name@ == TOUCH_ICON@,
        targets[0].edge == 192,
        targets[0].colors == 64,
        targets[0].sample_factor == 1,
        targets[1].file_name@ == FAVICON@,
        targets[1].edge == 48,
        targets[1].colors == 16,
        targets[1].sample_factor == 1,
{
    [
        IconTarget { file_name: TOUCH_ICON, edge: 192, colors: 64, sample_factor: 1 },
        IconTarget { file_name: FAVICON, edge: 48, colors: 16, sample_factor: 1 },
    ]
}

/// One template that is rendered beside the pages.
#[derive(Clone, Debug)]
pub struct TemplateJob {
    /// The template's path.
    pub template_path: String,
    /// Where its rendering is written.
    pub output_path: String,
}

/// A [`TemplateJob`] as plain values.
pub struct TemplateJobView {
    pub template_path: Seq<char>,
    pub output_path: Seq<char>,
}

impl View for TemplateJob {
    type V = TemplateJobView;

    open spec fn view(&self) -> TemplateJobView {
        TemplateJobView { template_path: self.template_path@, output_path: self.output_path@ }
    }
}

/// The job for the template at `file`: none for the layout itself, which is
/// known by its file name, and none for a path without a stem; else the
/// rendering goes under the output directory, named by the template's stem.
pub open spec fn template_job_of(file: Seq<char>, layout: Seq<char>, output_dir: Seq<char>) -> Option<
    TemplateJobView,
> {
    if path_file_name(file) == Some(layout) {
        None
    } else {
        match path_file_stem(file) {
            Some(stem) => Some(
                TemplateJobView { template_path: file, output_path: path_join(output_dir, stem) },
            ),
            None => None,
        }
    }
}

/// The jobs for the templates at `files`, in the order of the files.
pub open spec fn template_jobs_of(
    files: Seq<Seq<char>>,
    layout: Seq<char>,
    output_dir: Seq<char>,
) -> Seq<TemplateJobView>
    decreases files.len(),
{
    if files.len() == 0 {
        Seq::empty()
    } else {
        let before = template_jobs_of(files.drop_last(), layout, output_dir);
        match template_job_of(files.last(), layout, output_dir) {
            Some(job) => before.push(job),
            None => before,
        }
    }
}

/// The paths of a list of files, in list order.
pub open spec fn file_paths(files: Seq<String>) -> Seq<Seq<char>> {
    Seq::new(files.len(), |i: int| files[i]@)
}

/// The views of a list of template jobs, in list order.
pub open spec fn template_job_views(jobs: Seq<TemplateJob>) -> Seq<TemplateJobView> {
    Seq::new(jobs.len(), |i: int| jobs[i]@)
}

/// Lays out the rendering of the templates found at `files`: every one of
/// them but the site's layout, each written under `output_dir` by its stem,
/// so that `feed.xml.liquid` becomes `feed.xml`.
pub fn load_additional_templates(files: &Vec<String>, layout: &str, output_dir: &str) -> (jobs: Vec<
    TemplateJob,
>)
    ensures
        template_job_views(jobs@) == template_jobs_of(file_paths(files@), layout@, output_dir@),
{
    let mut jobs: Vec<TemplateJob> = Vec::new();
    let ghost paths = file_paths(files@);
    let mut i: usize = 0;
    proof {
        assert(paths.take(0) =~= Seq::<Seq<char>>::empty());
        assert(template_job_views(jobs@) =~= template_jobs_of(
            paths.take(0),
            layout@,
            output_dir@,
        ));
    }
    while i < files.len()
        invariant
            i <= files@.len(),
            paths == file_paths(files@),
            template_job_views(jobs@) == template_jobs_of(
                paths.take(i as int),
                layout@,
                output_dir@,
            ),
        decreases files@.len() - i,
    {
        let file = files[i].as_str();
        let ghost before = jobs@;
        proof {
            assert(paths.take(i + 1).drop_last() =~= paths.take(i as int));
            assert(paths.take(i + 1).last() == file@);
        }
        let is_layout = match file_name_of(file) {
            Some(name) => str_eq(name.as_str(), layout),
            None => false,
        };
        if !is_layout {
            match file_stem_of(file) {
                Some(stem) => {
                    jobs.push(
                        TemplateJob {
                            template_path: file.to_owned(),
                            output_path: join_paths(output_dir, stem.as_str()),
                        },
                    );
                    proof {
                        assert(template_job_views(jobs@) =~= template_job_views(before).push(
                            template_job_of(file@, layout@, output_dir@)->0,
                        ));
                    }
                },
                None => {},
            }
        }
        i += 1;
    }
    proof {
        assert(paths.take(i as int) =~= paths);
    }
    jobs
}

} // verus!
