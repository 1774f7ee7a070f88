use sandman::db::{channel_kind_from_str, lock_path, tier_from_i64, DbError};
use sandman::domain::channel::ChannelKind;
use sandman::scheduler::Tier;

#[test]
fn database_errors_read_as_sentences() {
    assert_eq!(DbError::Sqlite("disk full".to_string()).message(), "sqlite: disk full");
    assert_eq!(DbError::Json("eof".to_string()).message(), "could not read a stored value: eof");
    assert_eq!(DbError::SchemaVersion { found: 2, expected: 3 }.message(), "this database is at schema version 2; this build writes 3");
    assert_eq!(DbError::UnknownVariant { what: "role", tag: "chef".to_string() }.message(), "a stored `role` had the unknown variant `chef`");
    assert_eq!(DbError::Locked { path: "/x.sqlite".to_string(), pid: 42 }.message(), "/x.sqlite is open in process 42; only one Sandman may use a database at a time");
    assert_eq!(DbError::Lock { path: "/x.lock".to_string(), why: "read-only".to_string() }.message(), "could not take the lock at /x.lock: read-only");
}

#[test]
fn stored_spellings_are_read_back() {
    assert_eq!(tier_from_i64(1), Ok(Tier::Comms));
    assert_eq!(tier_from_i64(5), Ok(Tier::TaskLow));
    assert_eq!(tier_from_i64(0), Err(DbError::Corrupt("calls.tier is 0, not 1..=5".to_string())));
    assert_eq!(tier_from_i64(-3), Err(DbError::Corrupt("calls.tier is -3, not 1..=5".to_string())));
    assert_eq!(channel_kind_from_str("web"), Ok(ChannelKind::Web));
    assert_eq!(channel_kind_from_str("fax"), Err(DbError::UnknownVariant { what: "channel kind", tag: "fax".to_string() }));
    assert_eq!(lock_path("/var/sandman.sqlite"), "/var/sandman.sqlite.lock");
}
