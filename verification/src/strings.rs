//! Text as sequences of characters: the whitespace and decimal rules every
//! other module leans on, and the few std calls that turn characters back
//! into a `String`.
use vstd::prelude::*;

verus! {

/// Unicode `White_Space`, the property `char::is_whitespace` and
/// `str::split_whitespace` / `str::trim` go by.
pub open spec fn is_ws(c: char) -> bool {
    let u = c as u32;
    ||| (0x09 <= u && u <= 0x0d)
    ||| u == 0x20
    ||| u == 0x85
    ||| u == 0xa0
    ||| u == 0x1680
    ||| (0x2000 <= u && u <= 0x200a)
    ||| u == 0x2028
    ||| u == 0x2029
    ||| u == 0x202f
    ||| u == 0x205f
    ||| u == 0x3000
}

/// Whether `c` is Unicode whitespace.
pub fn is_whitespace(c: char) -> (b: bool)
    ensures
        b == is_ws(c),
{
    let u = c as u32;
    (0x09 <= u && u <= 0x0d) || u == 0x20 || u == 0x85 || u == 0xa0 || u == 0x1680 || (0x2000
        <= u && u <= 0x200a) || u == 0x2028 || u == 0x2029 || u == 0x202f || u == 0x205f || u
        == 0x3000
}

/// Every character of `s` is whitespace (true of the empty text).
pub open spec fn all_ws(s: Seq<char>) -> bool {
    forall|i: int| 0 <= i < s.len() ==> is_ws(#[trigger] s[i])
}

/// The characters of `s`, in order.
pub fn chars_of(s: &str) -> (out: Vec<char>)
    ensures
        out@ == s@,
{
    let mut out: Vec<char> = Vec::new();
    for c in it: s.chars()
        invariant
            out@ == it.seq().take(it.index() as int),
            it.seq() == s@,
    {
        out.push(c);
    }
    out
}

/// Collects characters into a `String` (std's `FromIterator<char>`), which
/// holds exactly those characters in that order.
#[verifier::external_body]
pub(crate) fn string_of(v: &Vec<char>) -> (s: String)
    ensures
        s@ == v@,
{
    v.iter().collect()
}

/// An owned copy of `s`.
pub fn owned(s: &str) -> (out: String)
    ensures
        out@ == s@,
{
    let v = chars_of(s);
    string_of(&v)
}

/// Appends the characters of `s` to `out`.
pub fn push_str(out: &mut Vec<char>, s: &str)
    ensures
        final(out)@ == old(out)@ + s@,
{
    for c in it: s.chars()
        invariant
            out@ == old(out)@ + it.seq().take(it.index() as int),
            it.seq() == s@,
    {
        out.push(c);
    }
    assert(out@ =~= old(out)@ + s@);
}

/// Appends the characters of `s` to `out`.
pub fn push_chars(out: &mut Vec<char>, s: &Vec<char>)
    ensures
        final(out)@ == old(out)@ + s@,
{
    let mut i: usize = 0;
    while i < s.len()
        invariant
            i <= s.len(),
            out@ == old(out)@ + s@.take(i as int),
        decreases s.len() - i,
    {
        out.push(s[i]);
        i = i + 1;
        assert(s@.take(i as int) =~= s@.take(i - 1 as int).push(s@[i - 1]));
    }
    assert(s@.take(s.len() as int) =~= s@);
}

/// Whether two runs of characters are the same.
pub fn vec_eq(a: &Vec<char>, b: &Vec<char>) -> (eq: bool)
    ensures
        eq == (a@ == b@),
{
    if a.len() != b.len() {
        return false;
    }
    let mut i: usize = 0;
    while i < a.len()
        invariant
            i <= a.len(),
            a.len() == b.len(),
            forall|j: int| 0 <= j < i ==> a@[j] == b@[j],
        decreases a.len() - i,
    {
        if a[i] != b[i] {
            return false;
        }
        i = i + 1;
    }
    assert(a@ =~= b@);
    true
}

/// Whether two texts are the same.
pub fn str_eq(a: &str, b: &str) -> (eq: bool)
    ensures
        eq == (a@ == b@),
{
    let x = chars_of(a);
    let y = chars_of(b);
    vec_eq(&x, &y)
}

// --- Decimal numbers ---------------------------------------------------------

/// The digit character for `d` in `0..10`.
pub open spec fn digit_char(d: nat) -> char {
    (('0' as u32) + d) as char
}

/// Whether `c` is an ASCII decimal digit.
pub open spec fn is_digit(c: char) -> bool {
    '0' <= c && c <= '9'
}

/// The value of an ASCII digit.
pub open spec fn digit_value(c: char) -> nat {
    (c as u32 - '0' as u32) as nat
}

/// The shortest decimal spelling of `n`: no sign, no leading zero, `"0"` for zero.
pub open spec fn decimal(n: nat) -> Seq<char>
    decreases n,
{
    if n < 10 {
        seq![digit_char(n)]
    } else {
        decimal(n / 10).push(digit_char(n % 10))
    }
}

/// The value a run of digits spells, most significant first.
pub open spec fn digits_value(s: Seq<char>) -> nat
    decreases s.len(),
{
    if s.len() == 0 {
        0
    } else {
        digits_value(s.drop_last()) * 10 + digit_value(s.last())
    }
}

/// `s` is a non-empty run of ASCII digits.
pub open spec fn all_digits(s: Seq<char>) -> bool {
    forall|i: int| 0 <= i < s.len() ==> is_digit(#[trigger] s[i])
}

/// `decimal(n)` padded on the left with zeros to at least `width` characters.
pub open spec fn zero_padded(n: nat, width: nat) -> Seq<char> {
    let d = decimal(n);
    if d.len() >= width {
        d
    } else {
        Seq::new((width - d.len()) as nat, |i: int| '0') + d
    }
}

pub proof fn lemma_decimal_digits(n: nat)
    ensures
        all_digits(decimal(n)),
        decimal(n).len() >= 1,
        digits_value(decimal(n)) == n,
    decreases n,
{
    lemma_digit_char(n % 10);
    if n >= 10 {
        lemma_decimal_digits(n / 10);
        let d = decimal(n);
        assert(d.drop_last() =~= decimal(n / 10));
        assert(d.last() == digit_char(n % 10));
        assert((n / 10) * 10 + n % 10 == n);
    } else {
        let d = decimal(n);
        assert(d.drop_last() =~= Seq::<char>::empty());
        assert(digits_value(Seq::<char>::empty()) == 0);
    }
}

pub proof fn lemma_digit_char(d: nat)
    requires
        d < 10,
    ensures
        is_digit(digit_char(d)),
        digit_value(digit_char(d)) == d,
{
    assert(((('0' as u32) + d) as char) as u32 == ('0' as u32) + d);
}

pub proof fn lemma_leading_zeros(k: nat, s: Seq<char>)
    ensures
        digits_value(Seq::new(k, |i: int| '0') + s) == digits_value(s) + 0 * k,
        digits_value(Seq::new(k, |i: int| '0') + s) == digits_value(s) || s.len() == 0,
    decreases s.len(),
{
    let z = Seq::new(k, |i: int| '0');
    if s.len() == 0 {
        assert(z + s =~= z);
        lemma_zeros_value(k);
    } else {
        lemma_leading_zeros(k, s.drop_last());
        assert((z + s).drop_last() =~= z + s.drop_last());
    }
}

pub proof fn lemma_zeros_value(k: nat)
    ensures
        digits_value(Seq::new(k, |i: int| '0')) == 0,
    decreases k,
{
    if k > 0 {
        lemma_zeros_value((k - 1) as nat);
        assert(Seq::new(k, |i: int| '0').drop_last() =~= Seq::new((k - 1) as nat, |i: int| '0'));
    }
}

pub proof fn lemma_zero_padded(n: nat, width: nat)
    ensures
        all_digits(zero_padded(n, width)),
        zero_padded(n, width).len() >= 1,
        digits_value(zero_padded(n, width)) == n,
{
    lemma_decimal_digits(n);
    let d = decimal(n);
    if d.len() < width {
        lemma_leading_zeros((width - d.len()) as nat, d);
    }
}

/// Spells `n` in decimal.
pub fn decimal_chars(n: u64) -> (out: Vec<char>)
    ensures
        out@ == decimal(n as nat),
    decreases n,
{
    if n < 10 {
        let mut v: Vec<char> = Vec::new();
        v.push(digit(n));
        v
    } else {
        let mut v = decimal_chars(n / 10);
        v.push(digit(n % 10));
        v
    }
}

/// The digit character for `d`.
pub fn digit(d: u64) -> (c: char)
    requires
        d < 10,
    ensures
        c == digit_char(d as nat),
{
    let u: u8 = 48u8 + (d as u8);
    u as char
}

/// Spells `n` in decimal, padded with zeros to `width` characters.
pub fn zero_padded_chars(n: u64, width: usize) -> (out: Vec<char>)
    ensures
        out@ == zero_padded(n as nat, width as nat),
{
    let d = decimal_chars(n);
    if d.len() >= width {
        d
    } else {
        let mut out: Vec<char> = Vec::new();
        let k = width - d.len();
        let mut i: usize = 0;
        while i < k
            invariant
                i <= k,
                out@ =~= Seq::new(i as nat, |j: int| '0'),
            decreases k - i,
        {
            out.push('0');
            i = i + 1;
        }
        push_chars(&mut out, &d);
        out
    }
}

/// What `u32::from_str` accepts: an optional `+`, then one or more ASCII
/// digits whose value fits in a `u32`.
pub open spec fn parse_u32(s: Seq<char>) -> Option<u32> {
    let body = if s.len() > 0 && s[0] == '+' { s.drop_first() } else { s };
    if body.len() > 0 && all_digits(body) && digits_value(body) <= u32::MAX {
        Some(digits_value(body) as u32)
    } else {
        None
    }
}

pub proof fn lemma_digits_value_monotone(s: Seq<char>, i: int)
    requires
        all_digits(s),
        0 <= i <= s.len(),
    ensures
        digits_value(s.take(i)) <= digits_value(s),
    decreases s.len() - i,
{
    if i < s.len() {
        lemma_digits_value_monotone(s, i + 1);
        assert(s.take(i + 1).drop_last() =~= s.take(i));
    } else {
        assert(s.take(i) =~= s);
    }
}

/// Reads an unsigned decimal the way `u32::from_str` does.
pub fn parse_u32_chars(s: &Vec<char>) -> (out: Option<u32>)
    ensures
        out == parse_u32(s@),
{
    let start: usize = if s.len() > 0 && s[0] == '+' { 1 } else { 0 };
    let ghost body = if s@.len() > 0 && s@[0] == '+' { s@.drop_first() } else { s@ };
    assert(body =~= s@.skip(start as int));
    if start >= s.len() {
        return None;
    }
    let mut acc: u64 = 0;
    let mut i: usize = start;
    while i < s.len()
        invariant
            start <= i <= s.len(),
            body =~= s@.skip(start as int),
            body == (if s@.len() > 0 && s@[0] == '+' { s@.drop_first() } else { s@ }),
            all_digits(body.take(i - start)),
            acc as nat == digits_value(body.take(i - start)),
            acc <= u32::MAX,
        decreases s.len() - i,
    {
        let c = s[i];
        if !('0' <= c && c <= '9') {
            assert(body[i - start] == c);
            assert(!is_digit(body[i - start]));
            assert(!all_digits(body));
            return None;
        }
        let d: u64 = ((c as u32) - 48) as u64;
        let next = acc * 10 + d;
        assert(body.take(i + 1 - start).drop_last() =~= body.take(i - start));
        assert(body.take(i + 1 - start).last() == c);
        if next > 0xffff_ffff {
            proof {
                assert(digits_value(body.take(i + 1 - start)) == next);
                if all_digits(body) {
                    lemma_digits_value_monotone(body, i + 1 - start);
                }
            }
            return None;
        }
        acc = next;
        i = i + 1;
    }
    assert(body.take(s.len() - start) =~= body);
    Some(acc as u32)
}

} // verus!

verus! {

// --- Searching and trimming ----------------------------------------------------

/// Whether `pat` occurs in `s` at index `i`.
pub open spec fn occurs_at(s: Seq<char>, pat: Seq<char>, i: int) -> bool {
    0 <= i && i + pat.len() <= s.len() && s.subrange(i, i + pat.len()) == pat
}

/// The first index at or after `start` where `pat` occurs in `s`, as
/// `str::find` reports it.
pub open spec fn find_from(s: Seq<char>, pat: Seq<char>, start: int) -> Option<int>
    decreases s.len() + 1 - start,
{
    if start < 0 || start + pat.len() > s.len() {
        None
    } else if s.subrange(start, start + pat.len()) == pat {
        Some(start)
    } else {
        find_from(s, pat, start + 1)
    }
}

/// The first index where `pat` occurs in `s`.
pub open spec fn find(s: Seq<char>, pat: Seq<char>) -> Option<int> {
    find_from(s, pat, 0)
}

pub proof fn lemma_find_from(s: Seq<char>, pat: Seq<char>, start: int)
    requires
        0 <= start,
    ensures
        match find_from(s, pat, start) {
            Some(i) => start <= i && occurs_at(s, pat, i) && forall|j: int|
                start <= j < i ==> !occurs_at(s, pat, j),
            None => forall|j: int| start <= j ==> !occurs_at(s, pat, j),
        },
    decreases s.len() + 1 - start,
{
    if start + pat.len() <= s.len() && s.subrange(start, start + pat.len()) != pat {
        lemma_find_from(s, pat, start + 1);
    }
}

/// Where `pat` first occurs in `v` at or after `start`.
pub fn find_chars(v: &Vec<char>, pat: &Vec<char>, start: usize) -> (out: Option<usize>)
    requires
        start <= v.len(),
    ensures
        match out {
            Some(i) => find_from(v@, pat@, start as int) == Some(i as int) && i + pat@.len() <= v@.len(),
            None => find_from(v@, pat@, start as int) is None,
        },
{
    let mut i = start;
    while pat.len() <= v.len() - i
        invariant
            start <= i <= v.len(),
            find_from(v@, pat@, start as int) == find_from(v@, pat@, i as int),
        decreases v.len() - i,
    {
        let mut k: usize = 0;
        let mut same = true;
        while k < pat.len()
            invariant
                k <= pat.len(),
                i + pat.len() <= v.len(),
                same == (forall|j: int| 0 <= j < k ==> v@[i + j] == pat@[j]),
            decreases pat.len() - k,
        {
            if v[i + k] != pat[k] {
                same = false;
            }
            k = k + 1;
        }
        if same {
            assert(v@.subrange(i as int, i + pat.len()) =~= pat@);
            return Some(i);
        } else {
            let ghost j = choose|j: int| 0 <= j < pat.len() && v@[i + j] != pat@[j];
            assert(v@.subrange(i as int, i + pat.len())[j] != pat@[j]);
        }
        i = i + 1;
    }
    None
}

/// `s` without its leading whitespace.
pub open spec fn trim_start(s: Seq<char>) -> Seq<char>
    decreases s.len(),
{
    if s.len() > 0 && is_ws(s[0]) {
        trim_start(s.drop_first())
    } else {
        s
    }
}

/// `s` without its trailing whitespace.
pub open spec fn trim_end(s: Seq<char>) -> Seq<char>
    decreases s.len(),
{
    if s.len() > 0 && is_ws(s.last()) {
        trim_end(s.drop_last())
    } else {
        s
    }
}

/// `s` without leading or trailing whitespace, as `str::trim` gives it.
pub open spec fn trim(s: Seq<char>) -> Seq<char> {
    trim_end(trim_start(s))
}

/// The characters of `v` from `from` on, without leading whitespace: the
/// index where they start.
pub fn skip_ws(v: &Vec<char>, from: usize) -> (at: usize)
    requires
        from <= v.len(),
    ensures
        from <= at <= v.len(),
        v@.skip(at as int) == trim_start(v@.skip(from as int)),
{
    let mut i = from;
    while i < v.len() && is_whitespace(v[i])
        invariant
            from <= i <= v.len(),
            trim_start(v@.skip(i as int)) == trim_start(v@.skip(from as int)),
        decreases v.len() - i,
    {
        assert(v@.skip(i as int).drop_first() =~= v@.skip(i + 1));
        i = i + 1;
    }
    assert(i < v.len() ==> v@.skip(i as int)[0] == v@[i as int]);
    i
}

/// Drops trailing whitespace.
pub fn trim_end_chars(v: &mut Vec<char>)
    ensures
        final(v)@ == trim_end(old(v)@),
{
    while v.len() > 0 && is_whitespace(v[v.len() - 1])
        invariant
            trim_end(v@) == trim_end(old(v)@),
        decreases v.len(),
    {
        let ghost before = v@;
        v.pop();
        assert(v@ =~= before.drop_last());
    }
}

/// `v[from..to]` trimmed of whitespace at both ends.
pub fn trimmed(v: &Vec<char>, from: usize, to: usize) -> (out: Vec<char>)
    requires
        from <= to <= v.len(),
    ensures
        out@ == trim(v@.subrange(from as int, to as int)),
{
    let mut i = from;
    while i < to && is_whitespace(v[i])
        invariant
            from <= i <= to,
            to <= v.len(),
            trim_start(v@.subrange(i as int, to as int)) == trim_start(v@.subrange(from as int, to as int)),
        decreases to - i,
    {
        assert(v@.subrange(i as int, to as int).drop_first() =~= v@.subrange(i + 1, to as int));
        i = i + 1;
    }
    assert(i < to ==> v@.subrange(i as int, to as int)[0] == v@[i as int]);
    let mut out: Vec<char> = Vec::new();
    let mut k = i;
    while k < to
        invariant
            i <= k <= to,
            to <= v.len(),
            out@ =~= v@.subrange(i as int, k as int),
        decreases to - k,
    {
        out.push(v[k]);
        k = k + 1;
    }
    trim_end_chars(&mut out);
    out
}

/// Whether `v` starts with `pat` at `at`.
pub fn starts_at(v: &Vec<char>, at: usize, pat: &str) -> (b: bool)
    requires
        at <= v.len(),
    ensures
        b == occurs_at(v@, pat@, at as int),
{
    let p = chars_of(pat);
    if p.len() > v.len() - at {
        return false;
    }
    let mut k: usize = 0;
    while k < p.len()
        invariant
            k <= p.len(),
            p@ == pat@,
            at + p.len() <= v.len(),
            forall|j: int| 0 <= j < k ==> v@[at + j] == p@[j],
        decreases p.len() - k,
    {
        if v[at + k] != p[k] {
            assert(v@.subrange(at as int, at + p.len())[k as int] != p@[k as int]);
            return false;
        }
        k = k + 1;
    }
    assert(v@.subrange(at as int, at + p.len()) =~= p@);
    true
}

// --- Joining and replacing --------------------------------------------------

/// `parts` joined with `sep` between each two, as `[..].join(sep)` gives.
pub open spec fn join(parts: Seq<Seq<char>>, sep: Seq<char>) -> Seq<char>
    decreases parts.len(),
{
    if parts.len() == 0 {
        Seq::empty()
    } else if parts.len() == 1 {
        parts[0]
    } else {
        join(parts.drop_last(), sep) + sep + parts.last()
    }
}

/// The characters of each of `parts`.
pub open spec fn views(parts: Seq<Vec<char>>) -> Seq<Seq<char>> {
    Seq::new(parts.len(), |i: int| parts[i]@)
}

/// Joins `parts` with `sep` between each two.
pub fn join_chars(parts: &Vec<Vec<char>>, sep: &str) -> (out: Vec<char>)
    ensures
        out@ == join(views(parts@), sep@),
{
    let mut out: Vec<char> = Vec::new();
    let mut i: usize = 0;
    while i < parts.len()
        invariant
            i <= parts.len(),
            out@ == join(views(parts@).take(i as int), sep@),
        decreases parts.len() - i,
    {
        let ghost before = views(parts@).take(i as int);
        let ghost after = views(parts@).take(i + 1);
        assert(after.drop_last() =~= before);
        assert(after.last() == parts@[i as int]@);
        if i > 0 {
            push_str(&mut out, sep);
        } else {
            assert(out@ =~= Seq::<char>::empty());
        }
        push_chars(&mut out, &parts[i]);
        if i == 0 {
            assert(out@ =~= after[0]);
        }
        i = i + 1;
    }
    assert(views(parts@).take(parts.len() as int) =~= views(parts@));
    out
}

/// A signed integer in decimal, with a leading `-` when negative.
pub open spec fn signed_decimal(n: int) -> Seq<char> {
    if n < 0 {
        seq!['-'] + decimal((-n) as nat)
    } else {
        decimal(n as nat)
    }
}

/// Writes an `i64` in decimal.
pub fn signed_decimal_chars(n: i64) -> (out: Vec<char>)
    ensures
        out@ == signed_decimal(n as int),
{
    if n < 0 {
        let m: u64 = if n == i64::MIN {
            9_223_372_036_854_775_808u64
        } else {
            (-n) as u64
        };
        let d = decimal_chars(m);
        let mut out: Vec<char> = Vec::new();
        out.push('-');
        push_chars(&mut out, &d);
        out
    } else {
        decimal_chars(n as u64)
    }
}

/// The number of characters in `s`.
pub fn char_count(s: &str) -> (n: usize)
    ensures
        n == s@.len(),
{
    let v = chars_of(s);
    v.len()
}

/// The first `n` characters of `s` (all of it where it is shorter).
pub fn take_chars(s: &str, n: usize) -> (out: String)
    ensures
        out@ == (if s@.len() <= n {
            s@
        } else {
            s@.take(n as int)
        }),
{
    let v = chars_of(s);
    let mut out: Vec<char> = Vec::new();
    let mut i: usize = 0;
    while i < n && i < v.len()
        invariant
            i <= v.len(),
            i <= n,
            v@ == s@,
            out@ =~= v@.take(i as int),
        decreases v.len() - i,
    {
        out.push(v[i]);
        i = i + 1;
    }
    proof {
        if s@.len() <= n {
            assert(v@.take(v.len() as int) =~= v@);
        }
    }
    string_of(&out)
}

} // verus!
