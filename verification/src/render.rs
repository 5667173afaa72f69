//! Rendering: zip the art's lines with the info lines into a two-column
//! table, the art column padded to a fixed minimum width, the two columns
//! separated by a single space.

use vstd::prelude::*;
use crate::distro::{spec_lines, split_lines};
use crate::strutil::{pad_to_width, spec_pad};

verus! {

/// The width the art column is padded to.
pub const ART_COLUMN_WIDTH: usize = 30;

/// The line of `lines` at `i`, or the empty line past the end.
pub open spec fn line_at(lines: Seq<Seq<char>>, i: int) -> Seq<char> {
    if 0 <= i < lines.len() {
        lines[i]
    } else {
        Seq::empty()
    }
}

/// One output row: the art line padded to the art column's width, a single
/// separating space, and the info line.
pub open spec fn spec_row(art_line: Seq<char>, info_line: Seq<char>) -> Seq<char> {
    spec_pad(art_line, ART_COLUMN_WIDTH as nat) + " "@ + info_line
}

/// The rows of the two-column table: one row per index up to the longer of
/// the two sequences, the shorter one reading as empty lines past its end.
pub open spec fn spec_render(art_lines: Seq<Seq<char>>, info: Seq<Seq<char>>) -> Seq<Seq<char>> {
    Seq::new(
        if art_lines.len() >= info.len() {
            art_lines.len()
        } else {
            info.len()
        },
        |i: int| spec_row(line_at(art_lines, i), line_at(info, i)),
    )
}

/// Zip the art block's lines with the info lines into the table's rows. The
/// row count is the greater of the two line counts; where one side has no
/// line at an index, its column is empty.
pub fn render_side_by_side(art: &str, info: &Vec<String>) -> (r: Vec<String>)
    ensures
        r.deep_view() == spec_render(spec_lines(art@), info.deep_view()),
        r@.len() == if spec_lines(art@).len() >= info@.len() {
            spec_lines(art@).len()
        } else {
            info@.len()
        },
{
    let art_lines = split_lines(art);
    let na = art_lines.len();
    let ni = info.len();
    let n = if na >= ni {
        na
    } else {
        ni
    };
    let mut out: Vec<String> = Vec::new();
    let mut i: usize = 0;
    proof {
        assert(out.deep_view() =~= spec_render(spec_lines(art@), info.deep_view()).subrange(
            0,
            0,
        ));
    }
    while i < n
        invariant
            na == art_lines@.len(),
            ni == info@.len(),
            n == if na >= ni {
                na as int
            } else {
                ni as int
            },
            art_lines.deep_view() == spec_lines(art@),
            i <= n,
            out.deep_view() == spec_render(spec_lines(art@), info.deep_view()).subrange(
                0,
                i as int,
            ),
        decreases n - i,
    {
        let a: &str = if i < na {
            art_lines[i].as_str()
        } else {
            ""
        };
        let b: &str = if i < ni {
            info[i].as_str()
        } else {
            ""
        };
        let mut row = pad_to_width(a, ART_COLUMN_WIDTH);
        row.append(" ");
        row.append(b);
        proof {
            reveal_strlit("");
            assert(""@ =~= Seq::<char>::empty());
            assert(a@ == line_at(spec_lines(art@), i as int));
            assert(b@ == line_at(info.deep_view(), i as int));
            assert(row@ == spec_row(line_at(spec_lines(art@), i as int), line_at(
                info.deep_view(),
                i as int,
            )));
        }
        let ghost old_out = out.deep_view();
        let ghost full = spec_render(spec_lines(art@), info.deep_view());
        out.push(row);
        proof {
            assert(out.deep_view() =~= old_out + seq![row@]);
            assert(full[i as int] == spec_row(line_at(spec_lines(art@), i as int), line_at(
                info.deep_view(),
                i as int,
            )));
            assert(full.subrange(0, i + 1) =~= full.subrange(0, i as int) + seq![full[i as int]]);
            assert(out.deep_view() == full.subrange(0, i + 1));
        }
        i += 1;
    }
    proof {
        assert(spec_render(spec_lines(art@), info.deep_view()).subrange(0, n as int)
            =~= spec_render(spec_lines(art@), info.deep_view()));
    }
    out
}

} // verus!
