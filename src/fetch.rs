//! What a fetch asks of the downloader tool, and what its answer means.
use vstd::prelude::*;
use vstd::string::StringExecFns;

use crate::lines::{first_line, is_first_line};

verus! {

/// The one way a fetch fails: the message says why.
#[derive(Debug, PartialEq)]
pub enum Error {
    DownloadError(String),
}

/// The filter that stands for "no filter": an empty object.
pub open spec fn default_tags() -> Seq<char> {
    seq!['{', '}']
}

/// The message of a fetch whose tool succeeded but named no resource.
pub open spec fn not_found_message() -> Seq<char> {
    seq!['N', 'o', 't', ' ', 'f', 'o', 'u', 'n', 'd', '.']
}

/// The tag filter handed to the tool: the one given, or else the empty one.
pub open spec fn tags_value(r_tags: Option<&str>) -> Seq<char> {
    match r_tags {
        Some(t) => t@,
        None => default_tags(),
    }
}

/// The arguments of the tool, in order: the resource type, the tag filter,
/// and the request for a single resource.
pub open spec fn download_args_spec(r_type: Seq<char>, tags: Seq<char>) -> Seq<Seq<char>> {
    seq![seq!['-', 't'], r_type, seq!['-', '-', 't', 'a', 'g', 's'], tags, seq!['-', '1']]
}

/// Returns the tag filter to hand to the tool: `r_tags`, or `"{}"` where it
/// is absent.
pub fn tags_or_default(r_tags: Option<&str>) -> (r: &str)
    ensures
        r@ == tags_value(r_tags),
{
    match r_tags {
        Some(t) => t,
        None => {
            proof {
                reveal_strlit("{}");
            }
            "{}"
        },
    }
}

/// Returns the arguments of one run of the tool that fetches the first
/// resource of type `r_type` that matches `r_tags`.
pub fn download_args(r_type: &str, r_tags: Option<&str>) -> (args: Vec<String>)
    ensures
        args@.len() == 5,
        r_tags is None ==> args@[3]@ == default_tags(),
        forall|i: int|
            0 <= i < 5 ==> #[trigger] args@[i]@ == download_args_spec(r_type@, tags_value(r_tags))[i],
{
    proof {
        reveal_strlit("-t");
        reveal_strlit("--tags");
        reveal_strlit("-1");
    }
    let mut args: Vec<String> = Vec::new();
    args.push(String::from_str("-t"));
    args.push(String::from_str(r_type));
    args.push(String::from_str("--tags"));
    args.push(String::from_str(tags_or_default(r_tags)));
    args.push(String::from_str("-1"));
    args
}

/// Turns the end of one run of the tool into the result of a fetch:
/// `success` tells whether it exited with status 0, `stdout` and `stderr` are
/// what it wrote.
pub fn download_outcome(success: bool, stdout: &str, stderr: &str) -> (r: Result<String, Error>)
    ensures
        !success ==> (r matches Err(Error::DownloadError(m)) && m@ == stderr@),
        success && stdout@.len() == 0 ==> (r matches Err(Error::DownloadError(m)) && m@
            == not_found_message()),
        success && stdout@.len() > 0 ==> (r matches Ok(p) && is_first_line(stdout@, p@)),
{
    if !success {
        return Err(Error::DownloadError(String::from_str(stderr)));
    }
    if stdout.is_empty() {
        let msg = String::from_str("Not found.");
        proof {
            reveal_strlit("Not found.");
            assert(msg@ =~= not_found_message());
        }
        return Err(Error::DownloadError(msg));
    }
    Ok(String::from_str(first_line(stdout)))
}

} // verus!
