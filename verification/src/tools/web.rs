//! The web tools' own logic: which URLs may be fetched, how a page becomes
//! readable text, and how search results are worded. The requests themselves
//! go out from the caller.
use vstd::prelude::*;

use crate::domain::text::{collapse, collapse_chars, is_collapsed, lemma_collapse_is_collapsed};
use crate::strings::{
    is_ws, chars_of, find_chars, find_from, join, join_chars, lemma_find_from, occurs_at, push_chars,
    push_str, starts_at, string_of, views,
};
use crate::tools::ToolError;

verus! {

/// A character's code with ASCII capitals folded to lower case, as
/// `to_ascii_lowercase` folds them.
pub open spec fn lower_code(c: char) -> u32 {
    if 'A' <= c && c <= 'Z' {
        (c as u32 + 32) as u32
    } else {
        c as u32
    }
}

/// Whether `pat` (lower case) occurs in `s` at `i`, ignoring ASCII case.
pub open spec fn occurs_folded_at(s: Seq<char>, pat: Seq<char>, i: int) -> bool {
    &&& 0 <= i
    &&& i + pat.len() <= s.len()
    &&& forall|k: int| 0 <= k < pat.len() ==> lower_code(#[trigger] s[i + k]) == pat[k] as u32
}

/// The first index at or after `start` where `pat` occurs in `s`, ignoring
/// ASCII case.
pub open spec fn find_folded_from(s: Seq<char>, pat: Seq<char>, start: int) -> Option<int>
    decreases s.len() + 1 - start,
{
    if start < 0 || start + pat.len() > s.len() {
        None
    } else if occurs_folded_at(s, pat, start) {
        Some(start)
    } else {
        find_folded_from(s, pat, start + 1)
    }
}

pub proof fn lemma_find_folded_from(s: Seq<char>, pat: Seq<char>, start: int)
    requires
        0 <= start,
    ensures
        find_folded_from(s, pat, start) matches Some(i) ==> start <= i && i + pat.len() <= s.len(),
    decreases s.len() + 1 - start,
{
    if start + pat.len() <= s.len() && !occurs_folded_at(s, pat, start) {
        lemma_find_folded_from(s, pat, start + 1);
    }
}

/// The text of `html` from index `i` on with its markup taken out: each tag
/// becomes one space; a `<script>` or `<style>` element goes whole, up to the
/// `>` that ends its closing tag; an unclosed tag or element runs to the end.
pub open spec fn stripped(s: Seq<char>, i: int) -> Seq<char>
    decreases s.len() - i,
{
    if i < 0 || i >= s.len() {
        Seq::empty()
    } else if s[i] != '<' {
        seq![s[i]] + stripped(s, i + 1)
    } else if occurs_folded_at(s, "<script"@, i) || occurs_folded_at(s, "<style"@, i) {
        let close = if occurs_folded_at(s, "<script"@, i) {
            "</script"@
        } else {
            "</style"@
        };
        match find_folded_from(s, close, i) {
            Some(p) => {
                proof {
                    lemma_find_folded_from(s, close, i);
                    lemma_find_from(s, ">"@, p);
                    reveal_strlit(">");
                    assert(find_from(s, ">"@, p) matches Some(g) ==> g >= i && g < s.len());
                }
                match find_from(s, ">"@, p) {
                    Some(g) => stripped(s, g + 1),
                    None => Seq::empty(),
                }
            },
            None => Seq::empty(),
        }
    } else {
        proof {
            lemma_find_from(s, ">"@, i);
            reveal_strlit(">");
            assert(find_from(s, ">"@, i) matches Some(g) ==> g >= i && g < s.len());
        }
        match find_from(s, ">"@, i) {
            Some(g) => seq![' '] + stripped(s, g + 1),
            None => seq![' '],
        }
    }
}

/// The entity that starts at `i`, if one does: how many characters it
/// spans and the character it stands for.
pub open spec fn entity_at(s: Seq<char>, i: int) -> Option<(int, char)> {
    if occurs_at(s, "&nbsp;"@, i) {
        Some((6, ' '))
    } else if occurs_at(s, "&amp;"@, i) {
        Some((5, '&'))
    } else if occurs_at(s, "&lt;"@, i) {
        Some((4, '<'))
    } else if occurs_at(s, "&gt;"@, i) {
        Some((4, '>'))
    } else if occurs_at(s, "&quot;"@, i) {
        Some((6, '"'))
    } else if occurs_at(s, "&apos;"@, i) {
        Some((6, '\''))
    } else if occurs_at(s, "&#39;"@, i) {
        Some((5, '\''))
    } else {
        None
    }
}

/// The text from `i` on with its entities decoded in one pass from left to
/// right: each entity becomes its character once, and what decoding makes
/// is never read again.
pub open spec fn decoded_from(s: Seq<char>, i: int) -> Seq<char>
    decreases s.len() - i,
{
    if i < 0 || i >= s.len() {
        Seq::empty()
    } else {
        match entity_at(s, i) {
            Some((n, c)) => if 0 < n && i + n <= s.len() {
                seq![c] + decoded_from(s, i + n)
            } else {
                Seq::empty()
            },
            None => seq![s[i]] + decoded_from(s, i + 1),
        }
    }
}

/// A text with its entities decoded.
pub open spec fn decoded(s: Seq<char>) -> Seq<char> {
    decoded_from(s, 0)
}

/// The readable text of a page: markup out, entities decoded, whitespace
/// collapsed to single spaces.
pub open spec fn page_text(html: Seq<char>) -> Seq<char> {
    collapse(decoded(stripped(html, 0)))
}

/// Whether `pat` (lower case) occurs in `v` at `at`, ignoring ASCII case.
fn starts_folded_at(v: &Vec<char>, at: usize, pat: &str) -> (b: bool)
    requires
        at <= v.len(),
    ensures
        b == occurs_folded_at(v@, pat@, at as int),
{
    let p = chars_of(pat);
    if p.len() > v.len() - at {
        return false;
    }
    let mut k: usize = 0;
    while k < p.len()
        invariant
            k <= p.len(),
            p@ == pat@,
            at + p.len() <= v.len(),
            forall|j: int| 0 <= j < k ==> lower_code(#[trigger] v@[at + j]) == p@[j] as u32,
        decreases p.len() - k,
    {
        let c = v[at + k];
        let code: u32 = if 'A' <= c && c <= 'Z' {
            (c as u32) + 32
        } else {
            c as u32
        };
        if code != p[k] as u32 {
            assert(lower_code(v@[at + k as int]) != p@[k as int] as u32);
            return false;
        }
        k = k + 1;
    }
    true
}

/// Where `pat` first occurs in `v` at or after `start`, ignoring ASCII case.
fn find_folded(v: &Vec<char>, pat: &str, start: usize) -> (out: Option<usize>)
    requires
        start <= v.len(),
    ensures
        match out {
            Some(i) => find_folded_from(v@, pat@, start as int) == Some(i as int),
            None => find_folded_from(v@, pat@, start as int) is None,
        },
{
    let p = chars_of(pat);
    let mut i = start;
    while p.len() <= v.len() - i
        invariant
            start <= i <= v.len(),
            p@ == pat@,
            find_folded_from(v@, pat@, start as int) == find_folded_from(v@, pat@, i as int),
        decreases v.len() - i,
    {
        if starts_folded_at(v, i, pat) {
            return Some(i);
        }
        i = i + 1;
    }
    None
}

/// The text of a page with its markup taken out.
pub fn strip_markup(html: &str) -> (out: Vec<char>)
    ensures
        out@ == stripped(html@, 0),
{
    let v = chars_of(html);
    let gt = chars_of(">");
    proof {
        reveal_strlit(">");
    }
    let mut out: Vec<char> = Vec::new();
    let mut i: usize = 0;
    while i < v.len()
        invariant
            i <= v.len(),
            v@ == html@,
            gt@ == ">"@,
            gt@.len() == 1,
            out@ + stripped(v@, i as int) == stripped(v@, 0),
        decreases v.len() - i,
    {
        if v[i] != '<' {
            out.push(v[i]);
            assert(out@ + stripped(v@, i + 1) =~= stripped(v@, 0));
            i = i + 1;
            continue;
        }
        let script = starts_folded_at(&v, i, "<script");
        let style = starts_folded_at(&v, i, "<style");
        if script || style {
            let close = if script {
                "</script"
            } else {
                "</style"
            };
            proof {
                lemma_find_folded_from(v@, close@, i as int);
            }
            match find_folded(&v, close, i) {
                Some(p) => {
                    proof {
                        lemma_find_from(v@, ">"@, p as int);
                    }
                    match find_chars(&v, &gt, p) {
                        Some(g) => {
                            i = g + 1;
                        },
                        None => {
                            assert(out@ + Seq::<char>::empty() =~= out@);
                            return out;
                        },
                    }
                },
                None => {
                    assert(out@ + Seq::<char>::empty() =~= out@);
                    return out;
                },
            }
        } else {
            proof {
                lemma_find_from(v@, ">"@, i as int);
            }
            match find_chars(&v, &gt, i) {
                Some(g) => {
                    out.push(' ');
                    assert(out@ + stripped(v@, g + 1) =~= stripped(v@, 0));
                    i = g + 1;
                },
                None => {
                    out.push(' ');
                    assert(out@ =~= stripped(v@, 0));
                    return out;
                },
            }
        }
    }
    assert(out@ + Seq::<char>::empty() =~= out@);
    out
}

/// Decodes the entities a page's text commonly holds, each once.
pub fn decode_entities(s: &Vec<char>) -> (out: Vec<char>)
    ensures
        out@ == decoded(s@),
{
    let mut out: Vec<char> = Vec::new();
    let mut i: usize = 0;
    while i < s.len()
        invariant
            i <= s.len(),
            out@ + decoded_from(s@, i as int) == decoded_from(s@, 0),
        decreases s.len() - i,
    {
        proof {
            reveal_strlit("&nbsp;");
            reveal_strlit("&amp;");
            reveal_strlit("&lt;");
            reveal_strlit("&gt;");
            reveal_strlit("&quot;");
            reveal_strlit("&apos;");
            reveal_strlit("&#39;");
        }
        let ghost before = out@;
        let (n, c): (usize, char) = if starts_at(s, i, "&nbsp;") {
            (6, ' ')
        } else if starts_at(s, i, "&amp;") {
            (5, '&')
        } else if starts_at(s, i, "&lt;") {
            (4, '<')
        } else if starts_at(s, i, "&gt;") {
            (4, '>')
        } else if starts_at(s, i, "&quot;") {
            (6, '"')
        } else if starts_at(s, i, "&apos;") {
            (6, '\'')
        } else if starts_at(s, i, "&#39;") {
            (5, '\'')
        } else {
            (0, s[i])
        };
        if n > 0 {
            assert(entity_at(s@, i as int) == Some((n as int, c)));
            assert(i + n <= s.len());
            out.push(c);
            assert(out@ + decoded_from(s@, i + n) =~= before + decoded_from(s@, i as int));
            i = i + n;
        } else {
            assert(entity_at(s@, i as int) is None);
            out.push(c);
            assert(out@ + decoded_from(s@, i + 1) =~= before + decoded_from(s@, i as int));
            i = i + 1;
        }
    }
    assert(out@ + Seq::<char>::empty() =~= out@);
    out
}

/// The readable text of a fetched page: markup out, entities decoded, and
/// whitespace collapsed to single spaces.
pub fn html_to_text(html: &str) -> (out: String)
    ensures
        out@ == page_text(html@),
{
    let stripped = strip_markup(html);
    let decoded = decode_entities(&stripped);
    let collapsed = collapse_chars(&decoded);
    string_of(&collapsed)
}

/// Whether `url` may be fetched: only over http or https.
pub open spec fn fetchable(url: Seq<char>) -> bool {
    occurs_at(url, "http://"@, 0) || occurs_at(url, "https://"@, 0)
}

/// Checks a URL before it is fetched: only http(s) URLs are.
pub fn check_url(url: &str) -> (out: Result<(), ToolError>)
    ensures
        fetchable(url@) ==> out is Ok,
        !fetchable(url@) ==> (out is Err && (out->Err_0 matches ToolError::Rejected(why) && why@
            == seq!['`'] + url@ + "` is not an http(s) URL."@)),
{
    let v = chars_of(url);
    if starts_at(&v, 0, "http://") || starts_at(&v, 0, "https://") {
        Ok(())
    } else {
        let mut w: Vec<char> = Vec::new();
        w.push('`');
        push_str(&mut w, url);
        push_str(&mut w, "` is not an http(s) URL.");
        Err(ToolError::Rejected(string_of(&w)))
    }
}

/// One search hit as the search engine gave it.
#[derive(Debug, Clone, PartialEq, Eq)]
pub struct SearchResult {
    pub title: String,
    pub url: String,
    pub content: String,
}

/// How one hit reads: title, URL and snippet on lines of their own.
pub open spec fn result_entry(r: SearchResult) -> Seq<char> {
    r.title@ + "\n"@ + r.url@ + "\n"@ + r.content@
}

/// How an engine that did not answer is named: `engine (reason)`.
pub open spec fn engine_entry(e: (String, String)) -> Seq<char> {
    e.0@ + " ("@ + e.1@ + ")"@
}

/// What the model reads of a search: the hits, a blank line between each, or
/// `No results.`; then a note naming the engines that did not answer, if any.
pub open spec fn results_text(results: Seq<SearchResult>, engines: Seq<(String, String)>) -> Seq<char> {
    let body = if results.len() == 0 {
        "No results."@
    } else {
        join(Seq::new(results.len(), |i: int| result_entry(results[i])), "\n\n"@)
    };
    if engines.len() == 0 {
        body
    } else {
        body + "\n\nNote: these engines did not answer (rate limit): "@ + join(
            Seq::new(engines.len(), |i: int| engine_entry(engines[i])),
            ", "@,
        ) + "."@
    }
}

/// Words a search's results for the model.
pub fn render_results(results: &Vec<SearchResult>, engines: &Vec<(String, String)>) -> (out: String)
    ensures
        out@ == results_text(results@, engines@),
{
    let mut v: Vec<char> = Vec::new();
    if results.len() == 0 {
        push_str(&mut v, "No results.");
    } else {
        let mut parts: Vec<Vec<char>> = Vec::new();
        let mut i: usize = 0;
        while i < results.len()
            invariant
                i <= results.len(),
                parts.len() == i,
                forall|k: int| 0 <= k < i ==> #[trigger] parts@[k]@ == result_entry(results@[k]),
            decreases results.len() - i,
        {
            let r = &results[i];
            let mut e: Vec<char> = Vec::new();
            push_str(&mut e, r.title.as_str());
            push_str(&mut e, "\n");
            push_str(&mut e, r.url.as_str());
            push_str(&mut e, "\n");
            push_str(&mut e, r.content.as_str());
            parts.push(e);
            i = i + 1;
        }
        assert(views(parts@) =~= Seq::new(results@.len(), |k: int| result_entry(results@[k])));
        let joined = join_chars(&parts, "\n\n");
        push_chars(&mut v, &joined);
    }
    if engines.len() > 0 {
        push_str(&mut v, "\n\nNote: these engines did not answer (rate limit): ");
        let mut names: Vec<Vec<char>> = Vec::new();
        let mut i: usize = 0;
        while i < engines.len()
            invariant
                i <= engines.len(),
                names.len() == i,
                forall|k: int| 0 <= k < i ==> #[trigger] names@[k]@ == engine_entry(engines@[k]),
            decreases engines.len() - i,
        {
            let mut e: Vec<char> = Vec::new();
            push_str(&mut e, engines[i].0.as_str());
            push_str(&mut e, " (");
            push_str(&mut e, engines[i].1.as_str());
            push_str(&mut e, ")");
            names.push(e);
            i = i + 1;
        }
        assert(views(names@) =~= Seq::new(engines@.len(), |k: int| engine_entry(engines@[k])));
        let joined = join_chars(&names, ", ");
        push_chars(&mut v, &joined);
        push_str(&mut v, ".");
    }
    string_of(&v)
}

/// A fetched page's text is tidy: no whitespace at either end, and words
/// separated by single spaces.
pub proof fn law_page_text_is_tidy(html: Seq<char>)
    ensures
        is_collapsed(page_text(html)),
        page_text(html).len() > 0 ==> !is_ws(page_text(html)[0]) && !is_ws(page_text(html).last()),
{
    let t = page_text(html);
    lemma_collapse_is_collapsed(decoded(stripped(html, 0)));
    if t.len() > 0 && is_ws(t[0]) {
        assert(0 < 0);
    }
}

} // verus!
