//! Distro detection: scan the text of an os-release style file for the first
//! line that starts with `ID=` and take the token between that `=` and the
//! next `=` (or the end of the line). A missing file or a missing `ID=` line
//! yields the sentinel `"unknown"`.

use vstd::prelude::*;
use crate::strutil::{is_prefix_of, starts_with};

verus! {

/// Index of the first occurrence of `c` in `s`, or `s.len()` when absent.
pub open spec fn first_index(s: Seq<char>, c: char) -> nat
    decreases s.len(),
{
    if s.len() == 0 {
        0
    } else if s[0] == c {
        0
    } else {
        1 + first_index(s.drop_first(), c)
    }
}

/// `first_index` points at the first occurrence: everything before it
/// differs from `c`, and it lands on `c` unless `c` is absent.
pub proof fn lemma_first_index(s: Seq<char>, c: char)
    ensures
        first_index(s, c) <= s.len(),
        forall|j: int| 0 <= j < first_index(s, c) ==> s[j] != c,
        first_index(s, c) < s.len() ==> s[first_index(s, c) as int] == c,
    decreases s.len(),
{
    if s.len() > 0 && s[0] != c {
        lemma_first_index(s.drop_first(), c);
        assert forall|j: int| 1 <= j < first_index(s, c) implies s[j] != c by {
            assert(s[j] == s.drop_first()[j - 1]);
        }
    }
}

/// A line's content before its terminator, with a carriage return that stood
/// right before the line feed removed.
pub open spec fn strip_cr(l: Seq<char>) -> Seq<char> {
    if l.len() > 0 && l[l.len() - 1] == '\r' {
        l.subrange(0, l.len() - 1)
    } else {
        l
    }
}

/// The lines of `s`, split at `'\n'`, each stripped of a `'\r'` that stood
/// right before the `'\n'`; a final piece without a terminator is kept as it
/// is, and a trailing terminator adds no empty line.
pub open spec fn spec_lines(s: Seq<char>) -> Seq<Seq<char>>
    decreases s.len(),
{
    if s.len() == 0 {
        Seq::empty()
    } else {
        let i = first_index(s, '\n') as int;
        if i == s.len() {
            seq![s]
        } else {
            proof {
                lemma_first_index(s, '\n');
            }
            seq![strip_cr(s.subrange(0, i))] + spec_lines(s.subrange(i + 1, s.len() as int))
        }
    }
}

/// The token the detector extracts from a line that starts with `ID=`:
/// the characters between that `=` and the next `=`, or the end of the line.
pub open spec fn spec_line_value(l: Seq<char>) -> Seq<char> {
    let rest = l.subrange(3, l.len() as int);
    rest.subrange(0, first_index(rest, '=') as int)
}

/// The identifier the detector yields for a given sequence of lines: the
/// value of the first line that starts with `ID=`, else `"unknown"`.
pub open spec fn spec_detect_lines(lines: Seq<Seq<char>>) -> Seq<char>
    decreases lines.len(),
{
    if lines.len() == 0 {
        "unknown"@
    } else if is_prefix_of("ID="@, lines[0]) {
        spec_line_value(lines[0])
    } else {
        spec_detect_lines(lines.drop_first())
    }
}

/// The identifier the detector yields for the file's content, where `None`
/// stands for an unreadable file.
pub open spec fn spec_detect(content: Option<Seq<char>>) -> Seq<char> {
    match content {
        Option::Some(s) => spec_detect_lines(spec_lines(s)),
        Option::None => "unknown"@,
    }
}

proof fn lemma_first_index_by_facts(s: Seq<char>, c: char, k: int)
    requires
        0 <= k <= s.len(),
        forall|j: int| 0 <= j < k ==> s[j] != c,
        k < s.len() ==> s[k] == c,
    ensures
        first_index(s, c) == k,
{
    lemma_first_index(s, c);
}

/// Split `s` into its lines, as `spec_lines` describes them.
pub fn split_lines(s: &str) -> (r: Vec<String>)
    ensures
        r.deep_view() == spec_lines(s@),
{
    let len = s.unicode_len();
    let mut r: Vec<String> = Vec::new();
    let mut start: usize = 0;
    let mut i: usize = 0;
    proof {
        assert(s@.subrange(0, len as int) =~= s@);
        assert(r.deep_view() =~= Seq::<Seq<char>>::empty());
        assert(Seq::<Seq<char>>::empty() + spec_lines(s@) =~= spec_lines(s@));
    }
    while i < len
        invariant
            len == s@.len(),
            start <= i <= len,
            spec_lines(s@) == r.deep_view() + spec_lines(s@.subrange(start as int, len as int)),
            forall|j: int| start <= j < i ==> s@[j] != '\n',
        decreases len - i,
    {
        if s.get_char(i) == '\n' {
            let ghost tail = s@.subrange(start as int, len as int);
            proof {
                lemma_first_index_by_facts(tail, '\n', i - start);
            }
            let mut end = i;
            if end > start && s.get_char(end - 1) == '\r' {
                end = end - 1;
            }
            let piece = s.substring_char(start, end).to_owned();
            proof {
                assert(tail.subrange(0, (i - start) as int) =~= s@.subrange(
                    start as int,
                    i as int,
                ));
                assert(piece@ =~= strip_cr(tail.subrange(0, (i - start) as int)));
                assert(tail.subrange((i - start + 1) as int, tail.len() as int) =~= s@.subrange(
                    (i + 1) as int,
                    len as int,
                ));
                assert(spec_lines(tail) == seq![piece@] + spec_lines(
                    s@.subrange((i + 1) as int, len as int),
                ));
            }
            let ghost old_r = r.deep_view();
            r.push(piece);
            proof {
                assert(r.deep_view() =~= old_r + seq![strip_cr(
                    tail.subrange(0, (i - start) as int),
                )]);
                assert((old_r + seq![strip_cr(tail.subrange(0, (i - start) as int))])
                    + spec_lines(s@.subrange((i + 1) as int, len as int)) =~= old_r + spec_lines(
                    tail,
                ));
            }
            start = i + 1;
        }
        i += 1;
    }
    let ghost tail = s@.subrange(start as int, len as int);
    proof {
        lemma_first_index_by_facts(tail, '\n', len - start);
    }
    if start < len {
        let piece = s.substring_char(start, len).to_owned();
        let ghost old_r = r.deep_view();
        r.push(piece);
        proof {
            assert(spec_lines(tail) == seq![tail]);
            assert(r.deep_view() =~= old_r + seq![tail]);
            assert(r.deep_view() =~= spec_lines(s@));
        }
    } else {
        proof {
            assert(tail =~= Seq::<char>::empty());
            assert(r.deep_view() + spec_lines(tail) =~= r.deep_view());
        }
    }
    r
}

/// Extract the identifier token from a line that starts with `ID=`.
fn extract_line_value(l: &str) -> (r: String)
    requires
        is_prefix_of("ID="@, l@),
    ensures
        r@ == spec_line_value(l@),
{
    proof {
        reveal_strlit("ID=");
    }
    let len = l.unicode_len();
    let rest = l.substring_char(3, len);
    let rlen = rest.unicode_len();
    let mut j: usize = 0;
    while j < rlen
        invariant
            l@.len() >= 3,
            rest@ == l@.subrange(3, l@.len() as int),
            rlen == rest@.len(),
            j <= rlen,
            forall|k: int| 0 <= k < j ==> rest@[k] != '=',
        decreases rlen - j,
    {
        if rest.get_char(j) == '=' {
            proof {
                lemma_first_index_by_facts(rest@, '=', j as int);
            }
            let v = rest.substring_char(0, j).to_owned();
            return v;
        }
        j += 1;
    }
    proof {
        lemma_first_index_by_facts(rest@, '=', rlen as int);
        assert(rest@.subrange(0, rlen as int) =~= rest@);
    }
    rest.to_owned()
}

/// Detect the distro identifier in the content of the os-release file, where
/// `None` stands for a file that could not be read: the value of the first
/// `ID=` line, else `"unknown"`.
pub fn detect_distro(content: Option<&str>) -> (r: String)
    ensures
        content matches Option::Some(s) ==> r@ == spec_detect(Option::Some(s@)),
        content is None ==> r@ == "unknown"@,
{
    match content {
        Option::None => "unknown".to_owned(),
        Option::Some(s) => {
            let lines = split_lines(s);
            let n = lines.len();
            let mut k: usize = 0;
            proof {
                assert(lines.deep_view().subrange(0, n as int) =~= lines.deep_view());
            }
            while k < n
                invariant
                    content == Option::Some(s),
                    n == lines.len(),
                    k <= n,
                    lines.deep_view() == spec_lines(s@),
                    spec_detect_lines(spec_lines(s@)) == spec_detect_lines(
                        lines.deep_view().subrange(k as int, n as int),
                    ),
                decreases n - k,
            {
                let ghost suffix = lines.deep_view().subrange(k as int, n as int);
                if starts_with(lines[k].as_str(), "ID=") {
                    proof {
                        assert(suffix[0] == lines.deep_view()[k as int]);
                        assert(suffix[0] == lines[k as int]@);
                        assert(spec_detect_lines(suffix) == spec_line_value(lines[k as int]@));
                    }
                    return extract_line_value(lines[k].as_str());
                }
                proof {
                    assert(suffix.drop_first() =~= lines.deep_view().subrange(
                        (k + 1) as int,
                        n as int,
                    ));
                }
                k += 1;
            }
            proof {
                assert(lines.deep_view().subrange(n as int, n as int) =~= Seq::<Seq<char>>::empty());
            }
            "unknown".to_owned()
        },
    }
}

} // verus!
