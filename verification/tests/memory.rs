use sandman::domain::ids::{ChannelId, LessonId, RunId, SessionId};
use sandman::domain::lesson::{Lesson, LessonSubject};
use sandman::domain::text::Day;
use sandman::domain::time::Timestamp;
use sandman::memory::{embedding_batch, lesson_corpus, search_failed, EmbedError};

#[test]
fn embedding_errors_read_as_sentences() {
    assert_eq!(EmbedError::Transport("refused".to_string()).message(), "could not reach the embedding service: refused");
    assert_eq!(EmbedError::Status { status: 503, body: "busy".to_string() }.message(), "HTTP 503: busy");
    assert_eq!(EmbedError::Malformed("eof".to_string()).message(), "the embedding service answered with something else: eof");
    assert_eq!(search_failed("the Lessons", &EmbedError::Malformed("eof".to_string())), "Could not search the Lessons: the embedding service answered with something else: eof");
}

#[test]
fn lessons_are_keyed_by_id_and_searched_by_text() {
    let lesson = Lesson {
        id: LessonId(3),
        run: RunId(1),
        text: "- tip".to_string(),
        day: Day::try_from("2024-01-31".to_string()).unwrap(),
        session: SessionId(1),
        about: LessonSubject::Conversation { channel: ChannelId(1) },
        at: Timestamp(0),
    };
    let corpus = lesson_corpus(vec![lesson.clone()]);
    assert_eq!(corpus.len(), 1);
    assert_eq!(corpus[0].0, "lesson/l-03");
    assert_eq!(corpus[0].1, "- tip");
    assert_eq!(corpus[0].2, lesson);
}

#[test]
fn only_items_without_a_vector_are_embedded_then_the_query() {
    let texts = vec!["a".to_string(), "b".to_string(), "c".to_string()];
    let (idx, batch) = embedding_batch(&vec![true, false, false], &texts, "q");
    assert_eq!(idx, vec![1, 2]);
    assert_eq!(batch, vec!["b".to_string(), "c".to_string(), "q".to_string()]);
    let (idx, batch) = embedding_batch(&vec![true, true, true], &texts, "q");
    assert!(idx.is_empty());
    assert_eq!(batch, vec!["q".to_string()]);
}
