//! Checked-once text: `Title`, `Brief` and `Day` are validated once, at the
//! edge, and never re-checked downstream.
//!
//! | Type | Rule | Transform |
//! | --- | --- | --- |
//! | `Title` | non-empty | runs of whitespace collapsed to single spaces, ends trimmed |
//! | `Brief` | non-empty after trimming | none — interior whitespace preserved |
//! | `Day` | `YYYY-MM-DD` as a calendar date reads it | none |
use vstd::prelude::*;

use crate::strings::{all_ws, chars_of, is_whitespace, is_ws, owned, push_str, string_of};

verus! {

/// The words of `s` (maximal runs of non-whitespace) joined by single spaces:
/// what `s.split_whitespace().collect::<Vec<_>>().join(" ")` gives.
///
/// Read from the right: trailing whitespace adds nothing; a character that
/// continues a word follows it directly; a character that starts a word
/// follows what came before with one space, or stands alone at the start.
pub open spec fn collapse(s: Seq<char>) -> Seq<char>
    decreases s.len(),
{
    if s.len() == 0 {
        Seq::empty()
    } else if is_ws(s.last()) {
        collapse(s.drop_last())
    } else if s.len() > 1 && !is_ws(s[s.len() - 2]) {
        collapse(s.drop_last()).push(s.last())
    } else if collapse(s.drop_last()).len() == 0 {
        seq![s.last()]
    } else {
        collapse(s.drop_last()).push(' ').push(s.last())
    }
}

/// A text collapses to nothing exactly when it is all whitespace.
pub proof fn lemma_collapse_empty(s: Seq<char>)
    ensures
        (collapse(s).len() == 0) == all_ws(s),
    decreases s.len(),
{
    if s.len() > 0 {
        lemma_collapse_empty(s.drop_last());
        if all_ws(s) {
            assert(all_ws(s.drop_last()));
        }
        if !is_ws(s.last()) {
            assert(!all_ws(s));
        } else if all_ws(s.drop_last()) {
            assert forall|i: int| 0 <= i < s.len() implies is_ws(#[trigger] s[i]) by {
                if i < s.len() - 1 {
                    assert(s[i] == s.drop_last()[i]);
                }
            }
        } else {
            let j = choose|j: int| 0 <= j < s.drop_last().len() && !is_ws(#[trigger] s.drop_last()[j]);
            assert(s[j] == s.drop_last()[j]);
        }
    }
}

/// Collapses whitespace as `Title` does.
pub fn collapse_whitespace(s: &str) -> (out: Vec<char>)
    ensures
        out@ == collapse(s@),
{
    let c = chars_of(s);
    collapse_chars(&c)
}

/// Collapses whitespace in a run of characters: its words joined by single
/// spaces.
pub fn collapse_chars(c: &Vec<char>) -> (out: Vec<char>)
    ensures
        out@ == collapse(c@),
{
    let mut out: Vec<char> = Vec::new();
    let mut i: usize = 0;
    while i < c.len()
        invariant
            i <= c.len(),
            out@ == collapse(c@.take(i as int)),
        decreases c.len() - i,
    {
        let ch = c[i];
        let ghost pre = c@.take(i as int);
        let ghost next = c@.take(i + 1 as int);
        assert(next.drop_last() =~= pre);
        assert(next.last() == ch);
        if is_whitespace(ch) {
        } else if i > 0 && !is_whitespace(c[i - 1]) {
            assert(next[next.len() - 2] == c@[i - 1]);
            out.push(ch);
        } else {
            if i > 0 {
                assert(next[next.len() - 2] == c@[i - 1]);
            }
            if out.len() == 0 {
                out.push(ch);
                assert(out@ =~= seq![ch]);
            } else {
                out.push(' ');
                out.push(ch);
            }
        }
        i = i + 1;
    }
    assert(c@.take(c.len() as int) =~= c@);
    out
}

/// Why text could not become its domain type. The wording is read by the
/// model, as tool output.
#[derive(Debug, Clone, PartialEq, Eq)]
pub enum TextError {
    Empty { what: &'static str },
    NotADay { text: String },
}

impl TextError {
    /// `a <what> cannot be empty`, or `` `<text>` is not a date of the form YYYY-MM-DD``.
    pub fn message(&self) -> (out: String)
        ensures
            out@ == text_error_message(*self),
    {
        let mut v: Vec<char> = Vec::new();
        match self {
            TextError::Empty { what } => {
                push_str(&mut v, "a ");
                push_str(&mut v, what);
                push_str(&mut v, " cannot be empty");
            },
            TextError::NotADay { text } => {
                v.push('`');
                push_str(&mut v, text.as_str());
                push_str(&mut v, "` is not a date of the form YYYY-MM-DD");
            },
        }
        string_of(&v)
    }
}

/// The sentence a `TextError` reads as.
pub open spec fn text_error_message(e: TextError) -> Seq<char> {
    match e {
        TextError::Empty { what } => "a "@ + what@ + " cannot be empty"@,
        TextError::NotADay { text } => seq!['`'] + text@ + "` is not a date of the form YYYY-MM-DD"@,
    }
}

/// One-line queue label a human scans: non-empty, whitespace collapsed.
#[derive(Debug, PartialEq, Eq, PartialOrd, Ord, Hash)]
pub struct Title(String);

/// Sole instructions a Worker receives: non-empty after trimming, kept as written.
#[derive(Debug, PartialEq, Eq, PartialOrd, Ord, Hash)]
pub struct Brief(String);

/// Local calendar day `YYYY-MM-DD`, as a human reads it on a lesson hit.
#[derive(Debug, PartialEq, Eq, PartialOrd, Ord, Hash)]
pub struct Day(String);

impl Clone for Title {
    fn clone(&self) -> (c: Self)
        ensures
            c@ == self@,
    {
        proof {
            use_type_invariant(self);
        }
        Title(self.0.clone())
    }
}

impl View for Title {
    type V = Seq<char>;

    closed spec fn view(&self) -> Seq<char> {
        self.0@
    }
}

impl Clone for Brief {
    fn clone(&self) -> (c: Self)
        ensures
            c@ == self@,
    {
        proof {
            use_type_invariant(self);
        }
        Brief(self.0.clone())
    }
}

impl View for Brief {
    type V = Seq<char>;

    closed spec fn view(&self) -> Seq<char> {
        self.0@
    }
}

impl Clone for Day {
    fn clone(&self) -> (c: Self)
        ensures
            c@ == self@,
    {
        proof {
            use_type_invariant(self);
        }
        Day(self.0.clone())
    }
}

impl View for Day {
    type V = Seq<char>;

    closed spec fn view(&self) -> Seq<char> {
        self.0@
    }
}

impl Title {
    #[verifier::type_invariant]
    closed spec fn collapsed(self) -> bool {
        &&& self.0@ == collapse(self.0@)
        &&& self.0@.len() > 0
    }

    /// Checks and collapses `s`: `Empty` when it holds nothing but whitespace.
    pub fn try_from(s: String) -> (out: Result<Title, TextError>)
        ensures
            match out {
                Ok(t) => t@ == collapse(s@) && !all_ws(s@),
                Err(e) => all_ws(s@) && e == (TextError::Empty { what: "title" }),
            },
    {
        let collapsed = collapse_whitespace(s.as_str());
        proof {
            lemma_collapse_empty(s@);
            lemma_collapse_idempotent(s@);
        }
        if collapsed.len() == 0 {
            return Err(TextError::Empty { what: "title" });
        }
        Ok(Title(string_of(&collapsed)))
    }

    /// Borrowed view of the title text.
    pub fn as_str(&self) -> (out: &str)
        ensures
            out@ == self@,
    {
        self.0.as_str()
    }

    /// The title text, owned.
    pub fn to_string(&self) -> (out: String)
        ensures
            out@ == self@,
    {
        self.0.clone()
    }

    /// Whether the text is collapsed and non-empty; a `Title` always is.
    pub fn is_valid(&self) -> (b: bool)
        ensures
            b,
            self@ == collapse(self@),
            self@.len() > 0,
    {
        proof {
            use_type_invariant(self);
        }
        true
    }
}

impl Brief {
    #[verifier::type_invariant]
    closed spec fn has_content(self) -> bool {
        !all_ws(self.0@)
    }

    /// Keeps `s` as written: `Empty` when it holds nothing but whitespace.
    pub fn try_from(s: String) -> (out: Result<Brief, TextError>)
        ensures
            match out {
                Ok(b) => b@ == s@ && !all_ws(s@),
                Err(e) => all_ws(s@) && e == (TextError::Empty { what: "brief" }),
            },
    {
        let c = chars_of(s.as_str());
        let mut i: usize = 0;
        while i < c.len()
            invariant
                i <= c.len(),
                c@ == s@,
                forall|j: int| 0 <= j < i ==> is_ws(#[trigger] c@[j]),
            decreases c.len() - i,
        {
            if !is_whitespace(c[i]) {
                return Ok(Brief(s));
            }
            i = i + 1;
        }
        Err(TextError::Empty { what: "brief" })
    }

    /// Borrowed view of the brief text.
    pub fn as_str(&self) -> (out: &str)
        ensures
            out@ == self@,
    {
        self.0.as_str()
    }

}

/// Whether chrono's `NaiveDate::parse_from_str` accepts `text` in `format`.
pub uninterp spec fn date_parses(text: Seq<char>, format: Seq<char>) -> bool;

/// Asks chrono's `NaiveDate::parse_from_str` whether `s` is a calendar date in
/// `format`; the answer is a function of the two texts, named `date_parses`.
#[verifier::external_body]
fn parse_date(s: &str, format: &str) -> (ok: bool)
    ensures
        ok == date_parses(s@, format@),
{
    chrono::NaiveDate::parse_from_str(s, format).is_ok()
}

impl Day {
    #[verifier::type_invariant]
    closed spec fn is_date(self) -> bool {
        date_parses(self.0@, "%Y-%m-%d"@)
    }

    /// Accepts `s` when it is a calendar date `YYYY-MM-DD`; `NotADay` otherwise.
    pub fn try_from(s: String) -> (out: Result<Day, TextError>)
        ensures
            match out {
                Ok(d) => d@ == s@ && date_parses(s@, "%Y-%m-%d"@),
                Err(e) => !date_parses(s@, "%Y-%m-%d"@) && e == (TextError::NotADay { text: s }),
            },
    {
        if parse_date(s.as_str(), "%Y-%m-%d") {
            Ok(Day(s))
        } else {
            Err(TextError::NotADay { text: s })
        }
    }

    /// Borrowed view of the day text `YYYY-MM-DD`.
    pub fn as_str(&self) -> (out: &str)
        ensures
            out@ == self@,
    {
        self.0.as_str()
    }
}

// --- Collapsing twice changes nothing ----------------------------------------

/// `t` is already collapsed: no whitespace but single spaces between words.
pub open spec fn is_collapsed(t: Seq<char>) -> bool {
    &&& forall|i: int| 0 <= i < t.len() && is_ws(#[trigger] t[i]) ==> t[i] == ' ' && 0 < i < t.len()
        - 1 && !is_ws(t[i - 1]) && !is_ws(t[i + 1])
}

pub proof fn lemma_collapse_is_collapsed(s: Seq<char>)
    ensures
        is_collapsed(collapse(s)),
        collapse(s).len() > 0 ==> !is_ws(collapse(s).last()),
    decreases s.len(),
{
    if s.len() > 0 {
        lemma_collapse_is_collapsed(s.drop_last());
        let r = collapse(s.drop_last());
        let t = collapse(s);
        if is_ws(s.last()) {
        } else if s.len() > 1 && !is_ws(s[s.len() - 2]) {
            assert forall|i: int| 0 <= i < t.len() && is_ws(#[trigger] t[i]) implies t[i] == ' '
                && 0 < i < t.len() - 1 && !is_ws(t[i - 1]) && !is_ws(t[i + 1]) by {
                assert(t[i] == r[i]);
            }
        } else if r.len() == 0 {
        } else {
            assert(' ' == ' ');
            assert forall|i: int| 0 <= i < t.len() && is_ws(#[trigger] t[i]) implies t[i] == ' '
                && 0 < i < t.len() - 1 && !is_ws(t[i - 1]) && !is_ws(t[i + 1]) by {
                if i < r.len() {
                    assert(t[i] == r[i]);
                }
            }
        }
    }
}

pub proof fn lemma_collapsed_fixed(t: Seq<char>)
    requires
        is_collapsed(t),
        t.len() > 0 ==> !is_ws(t[0]) && !is_ws(t.last()),
    ensures
        collapse(t) == t,
    decreases t.len(),
{
    if t.len() > 0 {
        let p = t.drop_last();
        if p.len() == 0 {
            assert(collapse(p) =~= Seq::<char>::empty());
            assert(collapse(t) =~= t);
        } else if !is_ws(p.last()) {
            assert(is_collapsed(p)) by {
                assert forall|i: int| 0 <= i < p.len() && is_ws(#[trigger] p[i]) implies p[i] == ' '
                    && 0 < i < p.len() - 1 && !is_ws(p[i - 1]) && !is_ws(p[i + 1]) by {
                    assert(p[i] == t[i]);
                    assert(t[i - 1] == p[i - 1]);
                    if i == p.len() - 1 {
                        assert(p[i] == p.last());
                    }
                    assert(t[i + 1] == p[i + 1]);
                }
            }
            assert(p[0] == t[0]);
            lemma_collapsed_fixed(p);
            assert(t[t.len() - 2] == p.last());
            assert(collapse(t) =~= t);
        } else {
            // p ends in the single space before t's last word's only character
            let q = p.drop_last();
            assert(p.last() == t[t.len() - 2]);
            assert(t[t.len() - 2] == ' ');
            assert(t.len() >= 3);
            assert(is_collapsed(q)) by {
                assert forall|i: int| 0 <= i < q.len() && is_ws(#[trigger] q[i]) implies q[i] == ' '
                    && 0 < i < q.len() - 1 && !is_ws(q[i - 1]) && !is_ws(q[i + 1]) by {
                    assert(q[i] == t[i]);
                    assert(t[i - 1] == q[i - 1]);
                    assert(t[i + 1] == q[i + 1] || i + 1 == q.len());
                    if i + 1 == q.len() {
                        assert(t[i + 1] == t[t.len() - 2]);
                    }
                }
            }
            assert(q[0] == t[0]);
            assert(q.last() == t[t.len() - 3]);
            lemma_collapsed_fixed(q);
            // collapse(p) drops the trailing space
            assert(p.drop_last() =~= q);
            assert(collapse(p) == collapse(q));
            lemma_collapse_empty(q);
            assert(!all_ws(q)) by {
                assert(!is_ws(q[0]));
            }
            assert(collapse(t) =~= t);
        }
    }
}

/// Collapsing is idempotent: `collapse(collapse(s)) == collapse(s)`.
pub proof fn lemma_collapse_idempotent(s: Seq<char>)
    ensures
        collapse(collapse(s)) == collapse(s),
{
    lemma_collapse_is_collapsed(s);
    let t = collapse(s);
    if t.len() > 0 {
        assert(!is_ws(t[0])) by {
            if is_ws(t[0]) {
                assert(0 < 0);
            }
        }
    }
    lemma_collapsed_fixed(t);
}

/// Checked once: the text of a title made from `s` passes the same check
/// again and comes out unchanged, so what the store re-checks on read always
/// passes and changes nothing.
pub proof fn law_title_recheck(s: Seq<char>)
    requires
        !all_ws(s),
    ensures
        !all_ws(collapse(s)),
        collapse(collapse(s)) == collapse(s),
{
    lemma_collapse_empty(s);
    lemma_collapse_empty(collapse(s));
    lemma_collapse_idempotent(s);
}

} // verus!
