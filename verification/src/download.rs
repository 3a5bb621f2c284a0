//! Deriving the destination of a download: the filename named by a
//! content-disposition header, the path under the download directory, and the
//! never-overwrite rule.
use vstd::prelude::*;
use vstd::string::StrSliceExecFns;

use crate::text::has_prefix;
use crate::text::join_path;
use crate::text::spec_join_path;
use crate::text::str_has_prefix;

verus! {

/// The whitespace characters that trimming removes, as the standard library
/// counts them.
pub open spec fn is_space(c: char) -> bool {
    ||| c == ' '
    ||| c == '\t'
    ||| c == '\n'
    ||| c == '\u{b}'
    ||| c == '\u{c}'
    ||| c == '\r'
    ||| c == '\u{85}'
    ||| c == '\u{a0}'
    ||| c == '\u{1680}'
    ||| c == '\u{2000}'
    ||| c == '\u{2001}'
    ||| c == '\u{2002}'
    ||| c == '\u{2003}'
    ||| c == '\u{2004}'
    ||| c == '\u{2005}'
    ||| c == '\u{2006}'
    ||| c == '\u{2007}'
    ||| c == '\u{2008}'
    ||| c == '\u{2009}'
    ||| c == '\u{200a}'
    ||| c == '\u{2028}'
    ||| c == '\u{2029}'
    ||| c == '\u{202f}'
    ||| c == '\u{205f}'
    ||| c == '\u{3000}'
}

fn is_space_char(c: char) -> (r: bool)
    ensures
        r == is_space(c),
{
    c == ' ' || c == '\t' || c == '\n' || c == '\u{b}' || c == '\u{c}' || c == '\r' || c == '\u{85}'
        || c == '\u{a0}' || c == '\u{1680}' || c == '\u{2000}' || c == '\u{2001}' || c == '\u{2002}'
        || c == '\u{2003}' || c == '\u{2004}' || c == '\u{2005}' || c == '\u{2006}' || c
        == '\u{2007}' || c == '\u{2008}' || c == '\u{2009}' || c == '\u{200a}' || c == '\u{2028}'
        || c == '\u{2029}' || c == '\u{202f}' || c == '\u{205f}' || c == '\u{3000}'
}

/// A text without its leading whitespace.
pub open spec fn trim_front(s: Seq<char>) -> Seq<char>
    decreases s.len(),
{
    if s.len() > 0 && is_space(s[0]) {
        trim_front(s.drop_first())
    } else {
        s
    }
}

/// A text without its trailing whitespace.
pub open spec fn trim_back(s: Seq<char>) -> Seq<char>
    decreases s.len(),
{
    if s.len() > 0 && is_space(s.last()) {
        trim_back(s.drop_last())
    } else {
        s
    }
}

/// A text without its leading and trailing whitespace.
pub open spec fn spec_trim(s: Seq<char>) -> Seq<char> {
    trim_back(trim_front(s))
}

/// A text without one pair of surrounding quotes, when it has one.
pub open spec fn strip_quotes(s: Seq<char>) -> Seq<char> {
    if s.len() >= 2 && s[0] == '"' && s.last() == '"' {
        s.subrange(1, s.len() - 1)
    } else {
        s
    }
}

/// The filename one header part names: its trimmed text must start with
/// `filename=`, and surrounding quotes around the value are stripped.
pub open spec fn part_filename(part: Seq<char>) -> Option<Seq<char>> {
    let t = spec_trim(part);
    if has_prefix(t, "filename="@) {
        Some(strip_quotes(t.skip("filename="@.len() as int)))
    } else {
        None
    }
}

/// The position of the last `;` in a text, if any.
pub open spec fn last_semi(s: Seq<char>) -> Option<int>
    decreases s.len(),
{
    if s.len() == 0 {
        None
    } else if s.last() == ';' {
        Some(s.len() - 1)
    } else {
        last_semi(s.drop_last())
    }
}

/// The filename a content-disposition header names: among the parts separated
/// by `;`, the last one naming a filename wins; `None` when no part does.
pub open spec fn spec_filename(s: Seq<char>) -> Option<Seq<char>>
    decreases s.len(),
{
    match last_semi(s) {
        None => part_filename(s),
        Some(i) => if 0 <= i < s.len() {
            match part_filename(s.skip(i + 1)) {
                Some(f) => Some(f),
                None => spec_filename(s.take(i)),
            }
        } else {
            None
        },
    }
}

proof fn lemma_last_semi_none(s: Seq<char>)
    requires
        forall|k: int| 0 <= k < s.len() ==> s[k] != ';',
    ensures
        last_semi(s) is None,
    decreases s.len(),
{
    if s.len() > 0 {
        assert(s.last() != ';');
        assert forall|k: int| 0 <= k < s.drop_last().len() implies s.drop_last()[k] != ';' by {
            assert(s.drop_last()[k] == s[k]);
        }
        lemma_last_semi_none(s.drop_last());
    }
}

proof fn lemma_last_semi_at(s: Seq<char>, i: int)
    requires
        0 <= i < s.len(),
        s[i] == ';',
        forall|k: int| i < k < s.len() ==> s[k] != ';',
    ensures
        last_semi(s) == Some(i),
    decreases s.len(),
{
    if i == s.len() - 1 {
        assert(s.last() == ';');
    } else {
        assert(s.last() != ';');
        assert(s.drop_last()[i] == s[i]);
        assert forall|k: int| i < k < s.drop_last().len() implies s.drop_last()[k] != ';' by {
            assert(s.drop_last()[k] == s[k]);
        }
        lemma_last_semi_at(s.drop_last(), i);
    }
}

proof fn lemma_trim_front_skip(s: Seq<char>, a: int)
    requires
        0 <= a <= s.len(),
        forall|k: int| 0 <= k < a ==> is_space(s[k]),
        a == s.len() || !is_space(s[a]),
    ensures
        trim_front(s) == s.skip(a),
    decreases a,
{
    if a == 0 {
        assert(s.skip(0) =~= s);
    } else {
        assert(is_space(s[0]));
        let d = s.drop_first();
        assert forall|k: int| 0 <= k < a - 1 implies is_space(d[k]) by {
            assert(d[k] == s[k + 1]);
        }
        assert(a - 1 == d.len() || !is_space(d[a - 1]));
        lemma_trim_front_skip(d, a - 1);
        assert(d.skip(a - 1) =~= s.skip(a));
    }
}

proof fn lemma_trim_back_take(s: Seq<char>, b: int)
    requires
        0 <= b <= s.len(),
        forall|k: int| b <= k < s.len() ==> is_space(s[k]),
        b == 0 || !is_space(s[b - 1]),
    ensures
        trim_back(s) == s.take(b),
    decreases s.len() - b,
{
    if b == s.len() {
        assert(s.take(b) =~= s);
    } else {
        assert(is_space(s[s.len() - 1]));
        let d = s.drop_last();
        assert forall|k: int| b <= k < d.len() implies is_space(d[k]) by {
            assert(d[k] == s[k]);
        }
        assert(b == 0 || !is_space(d[b - 1]));
        lemma_trim_back_take(d, b);
        assert(d.take(b) =~= s.take(b));
    }
}

/// The filename one part of the header names, if any: the part is trimmed,
/// must start with `filename=`, and surrounding quotes are stripped.
fn check_part(part: &str) -> (r: Option<String>)
    ensures
        match r {
            Some(f) => part_filename(part@) == Some(f@),
            None => part_filename(part@) is None,
        },
{
    let len = part.unicode_len();
    let mut a: usize = 0;
    while a < len && is_space_char(part.get_char(a))
        invariant
            0 <= a <= len,
            len == part@.len(),
            forall|k: int| 0 <= k < a ==> is_space(part@[k]),
        decreases len - a,
    {
        a = a + 1;
    }
    let mut b: usize = len;
    while b > a && is_space_char(part.get_char(b - 1))
        invariant
            a <= b <= len,
            len == part@.len(),
            forall|k: int| b <= k < len ==> is_space(part@[k]),
        decreases b,
    {
        b = b - 1;
    }
    let t = part.substring_char(a, b);
    proof {
        lemma_trim_front_skip(part@, a as int);
        lemma_trim_back_take(part@.skip(a as int), b - a);
        assert(part@.skip(a as int).take(b - a) =~= part@.subrange(a as int, b as int));
        assert(t@ == spec_trim(part@));
    }
    if str_has_prefix(t, "filename=") {
        proof {
            reveal_strlit("filename=");
        }
        let tlen = t.unicode_len();
        let rest = t.substring_char(9, tlen);
        proof {
            assert(rest@ =~= t@.skip("filename="@.len() as int));
        }
        let rlen = tlen - 9;
        if rlen >= 2 && rest.get_char(0) == '"' && rest.get_char(rlen - 1) == '"' {
            let inner = rest.substring_char(1, rlen - 1);
            proof {
                assert(inner@ == strip_quotes(rest@));
            }
            Some(inner.to_owned())
        } else {
            proof {
                assert(rest@ == strip_quotes(rest@));
            }
            Some(rest.to_owned())
        }
    } else {
        None
    }
}

/// Derives the filename a content-disposition header names: among the `;`
/// separated parts, the last `filename=` attribute wins, its value unquoted;
/// `None` when the header names no filename.
pub fn derive_filename(dispo: &str) -> (r: Option<String>)
    ensures
        match r {
            Some(f) => spec_filename(dispo@) == Some(f@),
            None => spec_filename(dispo@) is None,
        },
{
    let len = dispo.unicode_len();
    let mut end: usize = len;
    proof {
        assert(dispo@.take(len as int) =~= dispo@);
    }
    loop
        invariant
            end <= len,
            len == dispo@.len(),
            spec_filename(dispo@) == spec_filename(dispo@.take(end as int)),
        decreases end,
    {
        let ghost cur = dispo@.take(end as int);
        let mut j: usize = end;
        while j > 0 && dispo.get_char(j - 1) != ';'
            invariant
                0 <= j <= end,
                end <= len,
                len == dispo@.len(),
                forall|k: int| j <= k < end ==> dispo@[k] != ';',
            decreases j,
        {
            j = j - 1;
        }
        let part = dispo.substring_char(j, end);
        proof {
            assert(cur.len() == end as int);
            assert forall|k: int| j <= k < end implies cur[k] != ';' by {
                assert(cur[k] == dispo@[k]);
            }
            assert(part@ =~= cur.skip(j as int));
        }
        let found = check_part(part);
        if j == 0 {
            proof {
                lemma_last_semi_none(cur);
                assert(part@ =~= cur);
            }
            return found;
        }
        proof {
            assert(cur[j - 1] == dispo@[j - 1]);
            lemma_last_semi_at(cur, j - 1);
        }
        match found {
            Some(f) => {
                return Some(f);
            },
            None => {
                proof {
                    assert(spec_filename(cur) == spec_filename(cur.take(j - 1)));
                    assert(cur.take(j - 1) =~= dispo@.take(j - 1));
                }
                end = j - 1;
            },
        }
    }
}

/// The destination path of a download: the header's filename joined under the
/// download directory. `None`, and nothing is written, when no header came,
/// when it names no filename, or when the filename is empty.
pub open spec fn spec_destination(dir: Seq<char>, dispo: Option<Seq<char>>) -> Option<Seq<char>> {
    match dispo {
        None => None,
        Some(d) => match spec_filename(d) {
            Some(f) => if f.len() == 0 {
                None
            } else {
                Some(spec_join_path(dir, f))
            },
            None => None,
        },
    }
}

/// Computes where a fetched item would be written, per `spec_destination`.
pub fn download_destination(dir: &str, dispo: Option<&str>) -> (r: Option<String>)
    ensures
        match r {
            Some(p) => spec_destination(
                dir@,
                match dispo {
                    Some(d) => Some(d@),
                    None => None,
                },
            ) == Some(p@),
            None => spec_destination(
                dir@,
                match dispo {
                    Some(d) => Some(d@),
                    None => None,
                },
            ) is None,
        },
{
    let d = match dispo {
        Some(d) => d,
        None => {
            return None;
        },
    };
    match derive_filename(d) {
        Some(f) => {
            if f.as_str().unicode_len() == 0 {
                None
            } else {
                Some(join_path(dir, f.as_str()))
            }
        },
        None => None,
    }
}

/// What to do at the destination before writing.
#[derive(Clone, Copy, Debug, PartialEq, Eq, Structural)]
pub enum WritePlan {
    /// A file already stands at the destination: it is left untouched and the
    /// download still counts as delivered.
    SkipExisting,
    /// Nothing stands at the destination: the body is written there.
    WriteNew,
}

/// The never-overwrite rule: an existing file at the destination is never
/// written over; only a free destination is written.
pub fn plan_write(destination_exists: bool) -> (r: WritePlan)
    ensures
        r == WritePlan::SkipExisting <==> destination_exists,
        r == WritePlan::WriteNew <==> !destination_exists,
{
    if destination_exists {
        WritePlan::SkipExisting
    } else {
        WritePlan::WriteNew
    }
}

} // verus!
