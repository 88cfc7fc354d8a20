//! A static-site build pipeline with plugin hooks.
//!
//! Source documents are rendered from Markdown to HTML. Independently built
//! plugin programs take part at four named hooks: `init` and `postinit`
//! bracket a run, `markdown` and `html` transform one document's bytes before
//! and after rendering. This crate holds the rules of that pipeline: what a
//! plugin is asked, what becomes of its answer, in which order, and how many
//! documents may be in work at once. Starting processes, reading and writing
//! files and running threads are left to the caller.
pub mod compress;
pub mod config;
pub mod dispatch;
pub mod error;
pub mod essentials;
pub mod invoker;
pub mod job;
pub mod minify;
pub mod page;
pub mod paths;
pub mod plugin;
pub mod render;
pub mod scheduler;
pub mod text;
