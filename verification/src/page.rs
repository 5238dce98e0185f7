//! Preparation of the served viewer page.
//!
//! At server start the configured HTML document gets the connector
//! script injected before each closing body tag, with the script's
//! default minimum display duration replaced by the configured value.
//! Both steps are textual substitution: every occurrence of a pattern,
//! leftmost first and non-overlapping, gives way to a replacement.

use vstd::prelude::*;
use vstd::string::*;

verus! {

/// `text` with every occurrence of `pat` replaced by `rep`: scanning
/// left to right, the leftmost occurrence is replaced and scanning
/// resumes after the replacement, so occurrences never overlap and
/// the replacement itself is not rescanned. An empty pattern replaces
/// nothing.
pub open spec fn replace_all_spec(text: Seq<char>, pat: Seq<char>, rep: Seq<char>) -> Seq<char>
    decreases text.len(),
{
    if pat.len() == 0 || text.len() < pat.len() {
        text
    } else if text.subrange(0, pat.len() as int) == pat {
        rep + replace_all_spec(text.skip(pat.len() as int), pat, rep)
    } else {
        seq![text[0]] + replace_all_spec(text.skip(1), pat, rep)
    }
}

/// Whether `pat` stands in `text` at position `i`.
fn matches_at(text: &str, pat: &str, i: usize) -> (r: bool)
    requires
        i + pat@.len() <= text@.len(),
    ensures
        r == (text@.subrange(i as int, i + pat@.len()) == pat@),
{
    let n = text.unicode_len();
    let m = pat.unicode_len();
    let mut j: usize = 0;
    while j < m
        invariant
            n == text@.len(),
            m == pat@.len(),
            i + m <= n,
            j <= m,
            forall|k: int| 0 <= k < j ==> text@[i + k] == pat@[k],
        decreases m - j,
    {
        if text.get_char(i + j) != pat.get_char(j) {
            proof {
                assert(text@.subrange(i as int, i + m)[j as int] == text@[i + j]);
            }
            return false;
        }
        j += 1;
    }
    proof {
        assert(text@.subrange(i as int, i + m) =~= pat@);
    }
    true
}

/// `text` with every occurrence of `pat` replaced by `rep`, leftmost
/// first and non-overlapping.
pub fn replace_all(text: &str, pat: &str, rep: &str) -> (r: String)
    ensures
        r@ == replace_all_spec(text@, pat@, rep@),
{
    let n = text.unicode_len();
    let m = pat.unicode_len();
    if m == 0 {
        return text.to_owned();
    }
    let mut out = String::new();
    let mut i: usize = 0;
    proof {
        assert(text@.skip(0) =~= text@);
        assert(out@ + replace_all_spec(text@, pat@, rep@) =~= replace_all_spec(
            text@,
            pat@,
            rep@,
        ));
    }
    while i < n
        invariant
            n == text@.len(),
            m == pat@.len(),
            m >= 1,
            i <= n,
            replace_all_spec(text@, pat@, rep@) == out@ + replace_all_spec(
                text@.skip(i as int),
                pat@,
                rep@,
            ),
        decreases n - i,
    {
        let ghost out0 = out@;
        let ghost t = text@.skip(i as int);
        if m <= n && i <= n - m && matches_at(text, pat, i) {
            out.append(rep);
            proof {
                assert(t.subrange(0, m as int) =~= text@.subrange(i as int, i + m));
                assert(t.skip(m as int) =~= text@.skip(i + m));
                assert((out0 + rep@) + replace_all_spec(text@.skip(i + m), pat@, rep@) =~= out0
                    + replace_all_spec(t, pat@, rep@));
            }
            i += m;
        } else {
            out.append(text.substring_char(i, i + 1));
            proof {
                let c = text@[i as int];
                let t1 = text@.skip(i + 1);
                assert(text@.subrange(i as int, i + 1) =~= seq![c]);
                if i + m <= n {
                    assert(t.subrange(0, m as int) =~= text@.subrange(i as int, i + m));
                    assert(t.subrange(0, m as int) != pat@);
                    assert(t[0] == c);
                    assert(t.skip(1) =~= t1);
                    assert((out0 + seq![c]) + replace_all_spec(t1, pat@, rep@) =~= out0
                        + replace_all_spec(t, pat@, rep@));
                } else {
                    assert(t.len() < m);
                    assert(replace_all_spec(t, pat@, rep@) == t);
                    assert(t1.len() < m);
                    assert(replace_all_spec(t1, pat@, rep@) == t1);
                    assert(t =~= seq![c] + t1);
                    assert((out0 + seq![c]) + t1 =~= out0 + t);
                }
            }
            i += 1;
        }
    }
    proof {
        assert(replace_all_spec(text@.skip(n as int), pat@, rep@) == text@.skip(n as int));
        assert(out@ + text@.skip(n as int) =~= out@);
    }
    out
}

/// The script's default minimum display duration, as it stands in the
/// connector source.
pub open spec fn duration_pattern() -> Seq<char> {
    "const STATE_DURATION = 1000"@
}

/// The served page: the connector script wrapped in a script tag, its
/// default minimum display duration replaced by `duration_text`
/// (milliseconds), and the block inserted before every closing body
/// tag of `html`.
pub open spec fn page_spec(html: Seq<char>, connector: Seq<char>, duration_text: Seq<char>) -> Seq<
    char,
> {
    let block = "<script>\n"@ + connector + "\n</script>"@;
    let block = replace_all_spec(
        block,
        duration_pattern(),
        "const STATE_DURATION = "@ + duration_text,
    );
    replace_all_spec(html, "</body>"@, block + "\n"@ + "</body>"@)
}

/// Build the page served to viewers from the configured HTML
/// document, the connector script source and the configured minimum
/// display duration in milliseconds, already rendered as text.
pub fn build_page(html: &str, connector: &str, duration_text: &str) -> (r: String)
    ensures
        r@ == page_spec(html@, connector@, duration_text@),
{
    let mut block = String::from_str("<script>\n");
    block.append(connector);
    block.append("\n</script>");
    let mut replacement = String::from_str("const STATE_DURATION = ");
    replacement.append(duration_text);
    let mut inject = replace_all(
        block.as_str(),
        "const STATE_DURATION = 1000",
        replacement.as_str(),
    );
    inject.append("\n");
    inject.append("</body>");
    replace_all(html, "</body>", inject.as_str())
}

} // verus!
