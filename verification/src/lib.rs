//! Detects the host Linux distribution, selects matching ASCII art, gathers
//! basic system information, and lays the art and the info out as a
//! two-column table of text lines.

pub mod art;
pub mod distro;
pub mod info;
pub mod render;
pub mod strutil;

use vstd::prelude::*;
use crate::art::{get_ascii_art, spec_art};
use crate::distro::{detect_distro, spec_detect, spec_lines};
use crate::info::{get_system_info, spec_info_lines};
use crate::render::{render_side_by_side, spec_render};

verus! {

/// The rows of the whole table for a given os-release file content and a
/// given sequence of info lines: the art block of the detected identifier,
/// split into lines and zipped with the info lines.
pub open spec fn spec_fetch_rows(content: Option<Seq<char>>, info: Seq<Seq<char>>) -> Seq<
    Seq<char>,
> {
    spec_render(spec_lines(spec_art(spec_detect(content))), info)
}

/// Run the whole pipeline on the content of the os-release file, `None`
/// standing for a file that could not be read: detect the distro, select its
/// art, gather the six info lines from the host, and zip art and info into
/// the table's rows.
pub fn run(content: Option<&str>) -> (r: Vec<String>)
    ensures
        content matches Option::Some(s) ==> exists|info: Seq<Seq<char>>|
            info.len() == 6 && r.deep_view() == spec_fetch_rows(Option::Some(s@), info),
        content is None ==> exists|info: Seq<Seq<char>>|
            info.len() == 6 && r.deep_view() == spec_fetch_rows(Option::None, info),
{
    let distro = detect_distro(content);
    let art = get_ascii_art(distro.as_str());
    let info = get_system_info();
    let ghost ginfo = info.deep_view();
    let r = render_side_by_side(art, &info);
    proof {
        assert(ginfo.len() == 6);
        match content {
            Option::Some(s) => {
                assert(r.deep_view() == spec_fetch_rows(Option::Some(s@), ginfo));
            },
            Option::None => {
                assert(r.deep_view() == spec_fetch_rows(Option::None, ginfo));
            },
        }
    }
    r
}

/// Runs on an unchanged host are reproducible: the same file content and the
/// same query outcomes give exactly the same table, row for row.
pub proof fn lemma_run_deterministic(
    content: Option<Seq<char>>,
    user: Seq<char>,
    host: Seq<char>,
    os: Option<Seq<char>>,
    kernel: Option<Seq<char>>,
    cpu: Option<u64>,
    mem: Option<(u64, u64)>,
    r1: Seq<Seq<char>>,
    r2: Seq<Seq<char>>,
)
    requires
        r1 == spec_fetch_rows(content, spec_info_lines(user, host, os, kernel, cpu, mem)),
        r2 == spec_fetch_rows(content, spec_info_lines(user, host, os, kernel, cpu, mem)),
    ensures
        r1 == r2,
{
}

} // verus!
