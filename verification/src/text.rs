//! Character-level text operations: truncation with an ellipsis, and
//! replacement of every occurrence of a pattern.

use vstd::prelude::*;

verus! {

/// Truncation to `max_chars` characters, with "..." appended exactly when
/// something was cut off.
pub open spec fn truncated(s: Seq<char>, max_chars: int) -> Seq<char> {
    if s.len() > max_chars {
        s.subrange(0, max_chars) + "..."@
    } else {
        s
    }
}

/// Cut `s` to at most `max_chars` characters and append "..." when the text
/// was longer. Counting is by character, so no character is ever split.
pub fn truncate(s: String, max_chars: usize) -> (r: String)
    ensures
        r@ == truncated(s@, max_chars as int),
{
    let n = s.as_str().unicode_len();
    if n > max_chars {
        let mut r = String::from_str(s.as_str().substring_char(0, max_chars));
        r.append("...");
        r
    } else {
        s
    }
}

/// `s` with every occurrence of `pat` replaced by `rep`, scanning left to
/// right over non-overlapping occurrences, as `str::replace` does.
pub open spec fn replaced(s: Seq<char>, pat: Seq<char>, rep: Seq<char>) -> Seq<char>
    recommends
        pat.len() > 0,
    decreases s.len(),
{
    if s.len() == 0 || pat.len() == 0 {
        s
    } else if pat.len() <= s.len() && s.subrange(0, pat.len() as int) == pat {
        rep + replaced(s.subrange(pat.len() as int, s.len() as int), pat, rep)
    } else {
        seq![s[0]] + replaced(s.subrange(1, s.len() as int), pat, rep)
    }
}

fn matches_at(s: &str, i: usize, pat: &str) -> (r: bool)
    requires
        i + pat@.len() <= s@.len(),
        s@.len() <= usize::MAX,
    ensures
        r == (s@.subrange(i as int, i as int + pat@.len() as int) == pat@),
{
    let m = pat.unicode_len();
    let mut j: usize = 0;
    while j < m
        invariant
            j <= m,
            m == pat@.len(),
            i + m <= s@.len() <= usize::MAX,
            forall|k: int| 0 <= k < j ==> s@[i + k] == pat@[k],
        decreases m - j,
    {
        if s.get_char(i + j) != pat.get_char(j) {
            proof {
                assert(s@.subrange(i as int, i as int + pat@.len() as int)[j as int]
                    != pat@[j as int]);
            }
            return false;
        }
        j = j + 1;
    }
    proof {
        assert(s@.subrange(i as int, i as int + pat@.len() as int) =~= pat@);
    }
    true
}

/// Replace every occurrence of `pat` in `s` by `rep`, leftmost first.
pub fn replace_all(s: &str, pat: &str, rep: &str) -> (r: String)
    requires
        pat@.len() > 0,
    ensures
        r@ == replaced(s@, pat@, rep@),
{
    let n = s.unicode_len();
    let m = pat.unicode_len();
    let mut out = String::new();
    let mut i: usize = 0;
    proof {
        assert(s@.subrange(0, n as int) =~= s@);
        assert(Seq::<char>::empty() + replaced(s@, pat@, rep@) =~= replaced(s@, pat@, rep@));
    }
    while i < n
        invariant
            i <= n,
            n == s@.len(),
            m == pat@.len(),
            m > 0,
            replaced(s@, pat@, rep@) == out@ + replaced(
                s@.subrange(i as int, n as int),
                pat@,
                rep@,
            ),
        decreases n - i,
    {
        let ghost prev = out@;
        let ghost t = s@.subrange(i as int, n as int);
        let ghost i0 = i as int;
        if m <= n - i && matches_at(s, i, pat) {
            out.append(rep);
            i = i + m;
            proof {
                assert(t.subrange(0, pat@.len() as int) =~= s@.subrange(i0, i0 + m));
                assert(t.subrange(pat@.len() as int, t.len() as int) =~= s@.subrange(
                    i as int,
                    n as int,
                ));
                assert(replaced(t, pat@, rep@) == rep@ + replaced(
                    s@.subrange(i as int, n as int),
                    pat@,
                    rep@,
                ));
                assert(out@ + replaced(s@.subrange(i as int, n as int), pat@, rep@) =~= prev
                    + replaced(t, pat@, rep@));
            }
        } else {
            let piece = s.substring_char(i, i + 1);
            out.append(piece);
            i = i + 1;
            proof {
                if pat@.len() <= t.len() && t.subrange(0, pat@.len() as int) == pat@ {
                    assert(t.subrange(0, pat@.len() as int) =~= s@.subrange(i0, i0 + m));
                    assert(false);
                }
                assert(piece@ =~= seq![t[0]]);
                assert(t.subrange(1, t.len() as int) =~= s@.subrange(i as int, n as int));
                assert(replaced(t, pat@, rep@) == seq![t[0]] + replaced(
                    s@.subrange(i as int, n as int),
                    pat@,
                    rep@,
                ));
                assert(out@ + replaced(s@.subrange(i as int, n as int), pat@, rep@) =~= prev
                    + replaced(t, pat@, rep@));
            }
        }
    }
    proof {
        assert(s@.subrange(i as int, n as int) =~= Seq::<char>::empty());
        assert(out@ + replaced(Seq::<char>::empty(), pat@, rep@) =~= out@);
    }
    out
}

/// The markup substitutions applied to a description before display:
/// a double line break becomes a newline, a single line break is removed,
/// and italic tags open and close with "*".
pub open spec fn cleaned_markup(s: Seq<char>) -> Seq<char> {
    replaced(
        replaced(replaced(replaced(s, "<br><br>"@, "\n"@), "<br>"@, ""@), "<i>"@, "*"@),
        "</i>"@,
        "*"@,
    )
}

/// Apply the markup substitutions of `cleaned_markup` to `s`.
pub fn clean_markup(s: &str) -> (r: String)
    ensures
        r@ == cleaned_markup(s@),
{
    proof {
        reveal_strlit("<br><br>");
        reveal_strlit("<br>");
        reveal_strlit("<i>");
        reveal_strlit("</i>");
    }
    let a = replace_all(s, "<br><br>", "\n");
    let b = replace_all(a.as_str(), "<br>", "");
    let c = replace_all(b.as_str(), "<i>", "*");
    let d = replace_all(c.as_str(), "</i>", "*");
    d
}

} // verus!
