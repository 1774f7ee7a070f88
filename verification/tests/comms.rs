use sandman::comms::{kept_in_transcript, mail_entry, mail_line, to_say, NO_RESPONSE};
use sandman::domain::session::{Incoming, IncomingFrom};
use sandman::domain::time::Timestamp;
use sandman::session::Turn;

#[test]
fn mail_is_told_with_sender_and_time() {
    assert_eq!(mail_line(IncomingFrom::Human, "Mon 2024-01-01 09:00", "hello"), "[human, Mon 2024-01-01 09:00] hello");
    assert_eq!(mail_line(IncomingFrom::Swarm, "w", "done"), "[swarm, w] done");
    let entry = mail_entry(&Incoming { from: IncomingFrom::Human, text: "hi".to_string(), at: Timestamp(0) });
    assert!(entry.starts_with("[human, "));
    assert!(entry.ends_with("] hi"));
}

#[test]
fn the_silence_marker_is_silence() {
    assert_eq!(to_say(Turn::Text("hello".to_string())), Some("hello".to_string()));
    assert_eq!(to_say(Turn::Text(format!("ok {NO_RESPONSE}"))), None);
    assert_eq!(to_say(Turn::Silent), None);
    assert_eq!(to_say(Turn::Unreachable("down".to_string())), None);
    assert!(kept_in_transcript(IncomingFrom::Human));
    assert!(!kept_in_transcript(IncomingFrom::Swarm));
}
