//! The database's vocabulary: how it fails, where its lock lives, and the
//! spellings of the small values stored as bare columns.
//!
//! A sum type is stored as a tag column (indexed, what filters name) and an
//! opaque payload beside it, written together as one [`Tagged`] so they cannot
//! disagree.
use vstd::prelude::*;

use crate::domain::channel::{channel_kind_text, ChannelKind};
use crate::scheduler::{tier_rank, Tier};
use crate::strings::{decimal, decimal_chars, push_chars, push_str, string_of};

verus! {

/// Why the database could not do what was asked.
#[derive(Debug, Clone, PartialEq, Eq)]
pub enum DbError {
    /// SQLite refused; its words.
    Sqlite(String),
    /// A stored value could not be read; the parser's words.
    Json(String),
    /// The file is at another schema version than this build writes.
    SchemaVersion { found: u32, expected: u32 },
    /// A stored tag names no variant.
    UnknownVariant { what: &'static str, tag: String },
    /// A stored value breaks a rule of its type.
    Corrupt(String),
    /// Another process holds the database.
    Locked { path: String, pid: u32 },
    /// The lockfile could not be written; the system's words.
    Lock { path: String, why: String },
}

/// The sentence a database error reads as.
pub open spec fn db_error_text(e: DbError) -> Seq<char> {
    match e {
        DbError::Sqlite(why) => "sqlite: "@ + why@,
        DbError::Json(why) => "could not read a stored value: "@ + why@,
        DbError::SchemaVersion { found, expected } => "this database is at schema version "@
            + decimal(found as nat) + "; this build writes "@ + decimal(expected as nat),
        DbError::UnknownVariant { what, tag } => "a stored `"@ + what@ + "` had the unknown variant `"@
            + tag@ + "`"@,
        DbError::Corrupt(why) => why@,
        DbError::Locked { path, pid } => path@ + " is open in process "@ + decimal(pid as nat)
            + "; only one Sandman may use a database at a time"@,
        DbError::Lock { path, why } => "could not take the lock at "@ + path@ + ": "@ + why@,
    }
}

impl DbError {
    /// The sentence this error reads as.
    pub fn message(&self) -> (out: String)
        ensures
            out@ == db_error_text(*self),
    {
        let mut v: Vec<char> = Vec::new();
        match self {
            DbError::Sqlite(why) => {
                push_str(&mut v, "sqlite: ");
                push_str(&mut v, why.as_str());
            },
            DbError::Json(why) => {
                push_str(&mut v, "could not read a stored value: ");
                push_str(&mut v, why.as_str());
            },
            DbError::SchemaVersion { found, expected } => {
                push_str(&mut v, "this database is at schema version ");
                let f = decimal_chars(*found as u64);
                push_chars(&mut v, &f);
                push_str(&mut v, "; this build writes ");
                let e = decimal_chars(*expected as u64);
                push_chars(&mut v, &e);
            },
            DbError::UnknownVariant { what, tag } => {
                push_str(&mut v, "a stored `");
                push_str(&mut v, what);
                push_str(&mut v, "` had the unknown variant `");
                push_str(&mut v, tag.as_str());
                push_str(&mut v, "`");
            },
            DbError::Corrupt(why) => {
                push_str(&mut v, why.as_str());
            },
            DbError::Locked { path, pid } => {
                push_str(&mut v, path.as_str());
                push_str(&mut v, " is open in process ");
                let p = decimal_chars(*pid as u64);
                push_chars(&mut v, &p);
                push_str(&mut v, "; only one Sandman may use a database at a time");
            },
            DbError::Lock { path, why } => {
                push_str(&mut v, "could not take the lock at ");
                push_str(&mut v, path.as_str());
                push_str(&mut v, ": ");
                push_str(&mut v, why.as_str());
            },
        }
        string_of(&v)
    }
}

/// Where the database lives.
#[derive(Debug)]
pub enum Backing {
    /// A file on disk: what a real run uses.
    File(std::path::PathBuf),
    /// Private to this process and gone when it closes: what a bench case uses.
    Memory,
}

impl Backing {
    /// Whether the database is a file, which gets a lock and a write-ahead log.
    pub fn is_file(&self) -> (b: bool)
        ensures
            b == (*self is File),
    {
        match self {
            Backing::File(_) => true,
            Backing::Memory => false,
        }
    }
}

/// A sum type as stored: its tag, and its payload as JSON text.
#[derive(Debug, Clone, PartialEq, Eq)]
pub struct Tagged {
    pub tag: &'static str,
    pub json: String,
}

/// The lockfile beside a database: its path with `.lock` added.
pub fn lock_path(db: &str) -> (out: String)
    ensures
        out@ == db@ + ".lock"@,
{
    let mut v: Vec<char> = Vec::new();
    push_str(&mut v, db);
    push_str(&mut v, ".lock");
    string_of(&v)
}

/// Reads a stored Channel kind.
pub fn channel_kind_from_str(s: &str) -> (out: Result<ChannelKind, DbError>)
    ensures
        match out {
            Ok(k) => channel_kind_text(k) == s@,
            Err(e) => e matches DbError::UnknownVariant { what, tag } && what@ == "channel kind"@
                && tag@ == s@ && forall|k: ChannelKind| channel_kind_text(k) != s@,
        },
{
    match ChannelKind::from_str(s) {
        Some(k) => Ok(k),
        None => Err(DbError::UnknownVariant { what: "channel kind", tag: crate::strings::owned(s) }),
    }
}

/// Why a stored tier is refused.
pub open spec fn tier_refusal(n: int) -> Seq<char> {
    "calls.tier is "@ + (if n < 0 {
        seq!['-'] + decimal((-n) as nat)
    } else {
        decimal(n as nat)
    }) + ", not 1..=5"@
}

/// Reads a stored tier: an integer from 1 to 5.
pub fn tier_from_i64(n: i64) -> (out: Result<Tier, DbError>)
    ensures
        match out {
            Ok(t) => tier_rank(t) == n,
            Err(e) => e matches DbError::Corrupt(why) && why@ == tier_refusal(n as int) && (n < 1 || n
                > 5),
        },
{
    if 1 <= n && n <= 5 {
        let r: u8 = n as u8;
        match Tier::from_rank(r) {
            Some(t) => return Ok(t),
            None => {},
        }
    }
    let mut v: Vec<char> = Vec::new();
    push_str(&mut v, "calls.tier is ");
    if n < 0 {
        v.push('-');
        let m: u64 = if n == i64::MIN {
            9_223_372_036_854_775_808u64
        } else {
            (-n) as u64
        };
        let d = decimal_chars(m);
        push_chars(&mut v, &d);
    } else {
        let d = decimal_chars(n as u64);
        push_chars(&mut v, &d);
    }
    push_str(&mut v, ", not 1..=5");
    Err(DbError::Corrupt(string_of(&v)))
}

} // verus!
