//! Terminal colour for the bench's output: ANSI codes around the text when
//! colour is on, the text alone when it is off.
use vstd::prelude::*;

use crate::strings::{push_str, string_of};

verus! {

/// The code that ends a colour.
pub const RESET: &'static str = "\x1b[0m";
pub const BOLD: &'static str = "\x1b[1m";
pub const DIM: &'static str = "\x1b[2m";
pub const RED: &'static str = "\x1b[31m";
pub const GREEN: &'static str = "\x1b[32m";
pub const YELLOW: &'static str = "\x1b[33m";
pub const CYAN: &'static str = "\x1b[36m";

/// `text` painted with `code` when colour is on.
pub open spec fn painted(on: bool, code: Seq<char>, text: Seq<char>) -> Seq<char> {
    if on {
        code + text + RESET@
    } else {
        text
    }
}

/// Paints `text` with `code` when colour is on.
pub fn paint(on: bool, code: &str, text: &str) -> (out: String)
    ensures
        out@ == painted(on, code@, text@),
{
    let mut v: Vec<char> = Vec::new();
    if on {
        push_str(&mut v, code);
        push_str(&mut v, text);
        push_str(&mut v, RESET);
    } else {
        push_str(&mut v, text);
    }
    string_of(&v)
}

pub fn bold(on: bool, text: &str) -> (out: String)
    ensures
        out@ == painted(on, BOLD@, text@),
{
    paint(on, BOLD, text)
}

pub fn dim(on: bool, text: &str) -> (out: String)
    ensures
        out@ == painted(on, DIM@, text@),
{
    paint(on, DIM, text)
}

pub fn red(on: bool, text: &str) -> (out: String)
    ensures
        out@ == painted(on, RED@, text@),
{
    paint(on, RED, text)
}

pub fn green(on: bool, text: &str) -> (out: String)
    ensures
        out@ == painted(on, GREEN@, text@),
{
    paint(on, GREEN, text)
}

pub fn yellow(on: bool, text: &str) -> (out: String)
    ensures
        out@ == painted(on, YELLOW@, text@),
{
    paint(on, YELLOW, text)
}

pub fn cyan(on: bool, text: &str) -> (out: String)
    ensures
        out@ == painted(on, CYAN@, text@),
{
    paint(on, CYAN, text)
}

} // verus!
