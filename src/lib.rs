//! Fetching a named test resource through an outside downloader tool: the
//! tool's arguments, and the reading of its exit status and output.
mod fetch;
mod lines;

pub use fetch::{
    default_tags, download_args, download_args_spec, download_outcome, not_found_message,
    tags_or_default, tags_value, Error,
};
pub use lines::{first_line, is_first_line, lemma_first_line_unique};
