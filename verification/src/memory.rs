//! Search by meaning, as far as it is not arithmetic on floats: what each
//! searchable item is keyed and searched by, which items still need a vector,
//! and how a failed search is worded. Scoring and ordering by similarity
//! happen with the caller.
use vstd::prelude::*;

use crate::domain::ids::id_text;
use crate::domain::lesson::Lesson;
use crate::strings::{decimal, decimal_chars, push_chars, push_str, string_of};

verus! {

/// Why the embedding service could not give vectors.
#[derive(Debug, Clone, PartialEq, Eq)]
pub enum EmbedError {
    /// It could not be reached.
    Transport(String),
    /// It answered with a failing HTTP status.
    Status { status: u16, body: String },
    /// Its answer could not be read.
    Malformed(String),
}

/// The sentence an embedding error reads as.
pub open spec fn embed_error_text(e: EmbedError) -> Seq<char> {
    match e {
        EmbedError::Transport(why) => "could not reach the embedding service: "@ + why@,
        EmbedError::Status { status, body } => "HTTP "@ + decimal(status as nat) + ": "@ + body@,
        EmbedError::Malformed(why) => "the embedding service answered with something else: "@ + why@,
    }
}

impl EmbedError {
    /// The sentence this error reads as.
    pub fn message(&self) -> (out: String)
        ensures
            out@ == embed_error_text(*self),
    {
        let mut v: Vec<char> = Vec::new();
        match self {
            EmbedError::Transport(why) => {
                push_str(&mut v, "could not reach the embedding service: ");
                push_str(&mut v, why.as_str());
            },
            EmbedError::Status { status, body } => {
                push_str(&mut v, "HTTP ");
                let d = decimal_chars(*status as u64);
                push_chars(&mut v, &d);
                push_str(&mut v, ": ");
                push_str(&mut v, body.as_str());
            },
            EmbedError::Malformed(why) => {
                push_str(&mut v, "the embedding service answered with something else: ");
                push_str(&mut v, why.as_str());
            },
        }
        string_of(&v)
    }
}

/// What the model reads when a search could not be made.
pub fn search_failed(what: &str, err: &EmbedError) -> (out: String)
    ensures
        out@ == "Could not search "@ + what@ + ": "@ + embed_error_text(*err),
{
    let mut v: Vec<char> = Vec::new();
    push_str(&mut v, "Could not search ");
    push_str(&mut v, what);
    push_str(&mut v, ": ");
    let e = err.message();
    push_str(&mut v, e.as_str());
    string_of(&v)
}

/// The key a lesson's vector is kept under: `lesson/l-nn`.
pub open spec fn lesson_key(l: Lesson) -> Seq<char> {
    "lesson/"@ + id_text("l"@, l.id.0)
}

/// Lessons as a searchable corpus: each keyed by its id and searched by its
/// text alone, in the order given.
pub fn lesson_corpus(lessons: Vec<Lesson>) -> (out: Vec<(String, String, Lesson)>)
    ensures
        out.len() == lessons.len(),
        forall|i: int|
            0 <= i < out.len() ==> (#[trigger] out[i]).0@ == lesson_key(lessons[i]) && out[i].1@
                == lessons[i].text@ && out[i].2 == lessons[i],
{
    let mut out: Vec<(String, String, Lesson)> = Vec::new();
    let mut rest = lessons;
    let ghost all = rest@;
    let n = rest.len();
    let mut k: usize = 0;
    while k < n
        invariant
            n == all.len(),
            k <= n,
            rest@ == all.skip(k as int),
            out.len() == k,
            forall|i: int|
                0 <= i < k ==> (#[trigger] out[i]).0@ == lesson_key(all[i]) && out[i].1@ == all[i].text@
                    && out[i].2 == all[i],
        decreases n - k,
    {
        let l = rest.remove(0);
        assert(l == all[k as int]);
        let mut key: Vec<char> = Vec::new();
        push_str(&mut key, "lesson/");
        let id = l.id.to_string();
        push_str(&mut key, id.as_str());
        let text = l.text.clone();
        out.push((string_of(&key), text, l));
        assert(rest@ =~= all.skip(k + 1));
        k = k + 1;
    }
    out
}

/// Whether `idx` lists every item below `upto` that has no vector.
pub open spec fn lists_missing(idx: Seq<usize>, have: Seq<bool>, upto: int) -> bool {
    forall|m: int| 0 <= m < upto && !have[m] ==> #[trigger] idx.contains(m as usize)
}

/// What to ask the embedding service for: the texts of the items with no
/// vector kept yet, in order, then the query last. Returns those items'
/// indexes and the texts.
pub fn embedding_batch(have: &Vec<bool>, texts: &Vec<String>, query: &str) -> (out: (Vec<usize>, Vec<String>))
    requires
        have.len() == texts.len(),
    ensures
        out.1.len() == out.0.len() + 1,
        out.1[out.0.len() as int]@ == query@,
        forall|j: int|
            0 <= j < out.0.len() ==> #[trigger] out.0[j] < texts.len() && !have[out.0[j] as int]
                && out.1[j] == texts[out.0[j] as int],
        forall|j: int, k: int| 0 <= j < k < out.0.len() ==> out.0[j] < out.0[k],
        lists_missing(out.0@, have@, texts.len() as int),
{
    let mut idx: Vec<usize> = Vec::new();
    let mut batch: Vec<String> = Vec::new();
    let mut i: usize = 0;
    while i < texts.len()
        invariant
            i <= texts.len(),
            have.len() == texts.len(),
            batch.len() == idx.len(),
            forall|j: int|
                0 <= j < idx.len() ==> #[trigger] idx[j] < i && !have[idx[j] as int] && batch[j]
                    == texts[idx[j] as int],
            forall|j: int, k: int| 0 <= j < k < idx.len() ==> idx[j] < idx[k],
            lists_missing(idx@, have@, i as int),
        decreases texts.len() - i,
    {
        let ghost before = idx@;
        if !have[i] {
            idx.push(i);
            batch.push(texts[i].clone());
            assert(idx[idx.len() - 1] == i);
        }
        assert forall|m: int| 0 <= m < i + 1 && !have@[m] implies #[trigger] idx@.contains(m as usize) by {
            if m < i {
                assert(before.contains(m as usize));
                let j = choose|j: int| 0 <= j < before.len() && before[j] == m as usize;
                assert(idx@[j] == m as usize);
            } else {
                assert(idx@[idx.len() - 1] == m as usize);
            }
        }
        i = i + 1;
    }
    batch.push(crate::strings::owned(query));
    (idx, batch)
}

} // verus!
