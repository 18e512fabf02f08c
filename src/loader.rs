//! Reading a program listing into memory.
//!
//! A listing is text; each line of the form `0xADDR: HEXBYTES | comment`
//! writes its bytes into memory from `ADDR` on. Lines that do not start with
//! `0x`, or that hold no `:` or no `|`, are skipped. `ADDR` is hexadecimal
//! (an optional leading `+` is accepted); `HEXBYTES`, with surrounding white
//! space removed, is an even number of hexadecimal digits, two per byte.
//! Bytes that would land past the end of memory are dropped. A line with an
//! unreadable address or byte string makes the whole load fail.

use vstd::prelude::*;
use crate::isa::SimError;

verus! {

/// The number of characters from `i` up to the first `c` (or the end).
pub open spec fn span_until(s: Seq<char>, c: char, i: int) -> nat
    decreases s.len() - i,
{
    if i >= s.len() || s[i] == c {
        0
    } else {
        1 + span_until(s, c, i + 1)
    }
}

/// The index of the first `c` in `s`, or `s.len()` when there is none.
pub open spec fn index_of(s: Seq<char>, c: char) -> int {
    span_until(s, c, 0) as int
}

/// Unicode white space, as `char::is_whitespace` defines it.
pub open spec fn is_space(c: char) -> bool {
    let v = c as u32;
    (0x09 <= v <= 0x0d) || v == 0x20 || v == 0x85 || v == 0xa0 || v == 0x1680 || (0x2000 <= v
        <= 0x200a) || v == 0x2028 || v == 0x2029 || v == 0x202f || v == 0x205f || v == 0x3000
}

/// The number of white-space characters from `i` on.
pub open spec fn leading_spaces(s: Seq<char>, i: int) -> nat
    decreases s.len() - i,
{
    if i >= s.len() || !is_space(s[i]) {
        0
    } else {
        1 + leading_spaces(s, i + 1)
    }
}

/// The number of white-space characters that end `s[lo..j]`.
pub open spec fn trailing_spaces(s: Seq<char>, lo: int, j: int) -> nat
    decreases j - lo,
{
    if j <= lo || !is_space(s[j - 1]) {
        0
    } else {
        1 + trailing_spaces(s, lo, j - 1)
    }
}

/// `s` without leading and trailing white space.
pub open spec fn trim(s: Seq<char>) -> Seq<char> {
    let lo = leading_spaces(s, 0) as int;
    let hi = s.len() - trailing_spaces(s, lo, s.len() as int);
    s.subrange(lo, hi)
}

/// The value of a hexadecimal digit (either case).
pub open spec fn hex_digit(c: char) -> Option<u8> {
    let v = c as u32;
    if 0x30 <= v <= 0x39 {
        Some((v - 0x30) as u8)
    } else if 0x61 <= v <= 0x66 {
        Some((v - 0x61 + 10) as u8)
    } else if 0x41 <= v <= 0x46 {
        Some((v - 0x41 + 10) as u8)
    } else {
        None
    }
}

/// Whether every character of `s` is a hexadecimal digit.
pub open spec fn all_hex(s: Seq<char>) -> bool {
    forall|i: int| 0 <= i < s.len() ==> #[trigger] hex_digit(s[i]) is Some
}

/// The value of a string of hexadecimal digits, most significant first.
pub open spec fn hex_value(s: Seq<char>) -> nat
    decreases s.len(),
{
    if s.len() == 0 {
        0
    } else {
        hex_value(s.drop_last()) * 16 + hex_digit(s.last())->0 as nat
    }
}

/// A hexadecimal address as `usize::from_str_radix(_, 16)` reads it: an
/// optional `+`, then at least one digit, with a value that fits.
pub open spec fn parse_address(s: Seq<char>) -> Option<usize> {
    let digits = if s.len() > 0 && s[0] == '+' {
        s.drop_first()
    } else {
        s
    };
    if digits.len() == 0 || !all_hex(digits) || hex_value(digits) > usize::MAX {
        None
    } else {
        Some(hex_value(digits) as usize)
    }
}

/// The bytes that a string of hexadecimal digit pairs spells.
pub open spec fn hex_bytes(s: Seq<char>) -> Option<Seq<u8>> {
    if s.len() % 2 != 0 || !all_hex(s) {
        None
    } else {
        Some(
            Seq::new(
                s.len() / 2,
                |k: int| (hex_digit(s[2 * k])->0 * 16 + hex_digit(s[2 * k + 1])->0) as u8,
            ),
        )
    }
}

/// What one line of a listing asks for.
pub enum LineSpec {
    Ignored,
    Bytes(usize, Seq<u8>),
    Malformed,
}

/// How one line of a listing is read.
pub open spec fn line_spec(line: Seq<char>) -> LineSpec {
    if !(line.len() >= 2 && line[0] == '0' && line[1] == 'x') {
        LineSpec::Ignored
    } else {
        let colon = index_of(line, ':');
        if colon == line.len() {
            LineSpec::Ignored
        } else {
            match parse_address(line.subrange(2, colon)) {
                None => LineSpec::Malformed,
                Some(addr) => {
                    let pipe = index_of(line, '|');
                    if pipe == line.len() {
                        LineSpec::Ignored
                    } else if pipe < colon {
                        LineSpec::Malformed
                    } else {
                        match hex_bytes(trim(line.subrange(colon + 1, pipe))) {
                            None => LineSpec::Malformed,
                            Some(data) => LineSpec::Bytes(addr, data),
                        }
                    }
                },
            }
        }
    }
}

/// `mem` with `data` written from `addr` on, dropping what falls past the end.
pub open spec fn apply_bytes(mem: Seq<u8>, addr: int, data: Seq<u8>) -> Seq<u8> {
    Seq::new(
        mem.len(),
        |j: int|
            if addr <= j < addr + data.len() {
                data[j - addr]
            } else {
                mem[j]
            },
    )
}

/// Loads the lines of `text` from index `start` on into `mem`; `None` when a
/// line is malformed.
pub open spec fn load_from(mem: Seq<u8>, text: Seq<char>, start: int) -> Option<Seq<u8>>
    decreases text.len() - start,
{
    let end = start + span_until(text, '\n', start);
    let next = match line_spec(text.subrange(start, end)) {
        LineSpec::Ignored => Some(mem),
        LineSpec::Malformed => None,
        LineSpec::Bytes(addr, data) => Some(apply_bytes(mem, addr as int, data)),
    };
    match next {
        None => None,
        Some(m2) => if end >= text.len() {
            Some(m2)
        } else {
            load_from(m2, text, end + 1)
        },
    }
}

/// The memory after loading the listing `text` into `mem`, or `None` when a
/// line is malformed.
pub open spec fn load_text(mem: Seq<u8>, text: Seq<char>) -> Option<Seq<u8>> {
    load_from(mem, text, 0)
}

/// A line of a listing as read: skipped, bytes to write, or malformed.
pub enum LineKind {
    Ignored,
    Bytes(usize, Vec<u8>),
    Malformed,
}

impl View for LineKind {
    type V = LineSpec;

    open spec fn view(&self) -> LineSpec {
        match self {
            LineKind::Ignored => LineSpec::Ignored,
            LineKind::Bytes(addr, data) => LineSpec::Bytes(*addr, data@),
            LineKind::Malformed => LineSpec::Malformed,
        }
    }
}

/// The characters of `s`.
fn chars_of(s: &String) -> (r: Vec<char>)
    ensures
        r@ == s@,
{
    let mut out: Vec<char> = Vec::new();
    for c in it: s.as_str().chars()
        invariant
            out@ == it.seq().take(it.index() as int),
            it.seq() == s@,
    {
        out.push(c);
    }
    out
}

/// The index of the first `c` at or after `i`, or `s.len()`.
fn span_end(s: &Vec<char>, c: char, i: usize) -> (r: usize)
    requires
        i <= s.len(),
    ensures
        r == i + span_until(s@, c, i as int),
        r <= s.len(),
        r < s.len() ==> s@[r as int] == c,
{
    let mut j = i;
    while j < s.len() && s[j] != c
        invariant
            i <= j <= s.len(),
            span_until(s@, c, i as int) == (j - i) + span_until(s@, c, j as int),
        decreases s.len() - j,
    {
        j = j + 1;
    }
    j
}

/// A copy of `s[lo..hi]`.
fn slice(s: &Vec<char>, lo: usize, hi: usize) -> (r: Vec<char>)
    requires
        lo <= hi <= s.len(),
    ensures
        r@ == s@.subrange(lo as int, hi as int),
{
    let mut out: Vec<char> = Vec::new();
    let mut k = lo;
    while k < hi
        invariant
            lo <= k <= hi <= s.len(),
            out@ == s@.subrange(lo as int, k as int),
        decreases hi - k,
    {
        out.push(s[k]);
        k = k + 1;
        assert(out@ =~= s@.subrange(lo as int, k as int));
    }
    out
}

/// Whether `c` is Unicode white space.
fn space_char(c: char) -> (r: bool)
    ensures
        r == is_space(c),
{
    let v = c as u32;
    (0x09 <= v && v <= 0x0d) || v == 0x20 || v == 0x85 || v == 0xa0 || v == 0x1680 || (0x2000
        <= v && v <= 0x200a) || v == 0x2028 || v == 0x2029 || v == 0x202f || v == 0x205f || v
        == 0x3000
}

/// `s` without leading and trailing white space.
fn trim_chars(s: &Vec<char>) -> (r: Vec<char>)
    ensures
        r@ == trim(s@),
{
    let len = s.len();
    let mut lo: usize = 0;
    while lo < len && space_char(s[lo])
        invariant
            lo <= len == s.len(),
            leading_spaces(s@, 0) == lo + leading_spaces(s@, lo as int),
        decreases len - lo,
    {
        lo = lo + 1;
    }
    let mut hi: usize = len;
    while hi > lo && space_char(s[hi - 1])
        invariant
            lo <= hi <= len == s.len(),
            lo == leading_spaces(s@, 0),
            trailing_spaces(s@, lo as int, len as int) == (len - hi) + trailing_spaces(
                s@,
                lo as int,
                hi as int,
            ),
        decreases hi - lo,
    {
        hi = hi - 1;
    }
    slice(s, lo, hi)
}

/// The value of a hexadecimal digit.
fn digit_value(c: char) -> (r: Option<u8>)
    ensures
        r == hex_digit(c),
{
    let v = c as u32;
    if 0x30 <= v && v <= 0x39 {
        Some((v - 0x30) as u8)
    } else if 0x61 <= v && v <= 0x66 {
        Some((v - 0x61 + 10) as u8)
    } else if 0x41 <= v && v <= 0x46 {
        Some((v - 0x41 + 10) as u8)
    } else {
        None
    }
}

/// Reads a hexadecimal address.
fn read_address(s: &Vec<char>) -> (r: Option<usize>)
    ensures
        r == parse_address(s@),
{
    let start: usize = if s.len() > 0 && s[0] == '+' {
        1
    } else {
        0
    };
    let ghost digits = s@.subrange(start as int, s.len() as int);
    assert(digits =~= (if s@.len() > 0 && s@[0] == '+' {
        s@.drop_first()
    } else {
        s@
    }));
    if start == s.len() {
        return None;
    }
    let mut acc: usize = 0;
    let mut fits = true;
    let mut i = start;
    while i < s.len()
        invariant
            start <= i <= s.len(),
            digits == s@.subrange(start as int, s.len() as int),
            digits == (if s@.len() > 0 && s@[0] == '+' {
                s@.drop_first()
            } else {
                s@
            }),
            all_hex(digits.take(i - start)),
            fits ==> acc == hex_value(digits.take(i - start)),
            !fits ==> hex_value(digits.take(i - start)) > usize::MAX,
        decreases s.len() - i,
    {
        let ghost k = i - start;
        let d = match digit_value(s[i]) {
            Some(d) => d,
            None => {
                assert(digits[k as int] == s@[i as int]);
                assert(!all_hex(digits));
                return None;
            },
        };
        assert(digits.take(k + 1).drop_last() =~= digits.take(k));
        assert(digits.take(k + 1).last() == s@[i as int]);
        if fits {
            match acc.checked_mul(16) {
                Some(m) => match m.checked_add(d as usize) {
                    Some(v) => {
                        acc = v;
                    },
                    None => {
                        fits = false;
                    },
                },
                None => {
                    fits = false;
                },
            }
        }
        i = i + 1;
        assert(all_hex(digits.take(i - start)));
    }
    assert(digits.take(s.len() - start) =~= digits);
    if fits {
        Some(acc)
    } else {
        None
    }
}

/// Reads a string of hexadecimal digit pairs as bytes.
fn read_hex_bytes(s: &Vec<char>) -> (r: Option<Vec<u8>>)
    ensures
        match hex_bytes(s@) {
            Some(d) => r is Some && r->0@ == d,
            None => r is None,
        },
{
    if s.len() % 2 != 0 {
        return None;
    }
    let n = s.len() / 2;
    let mut out: Vec<u8> = Vec::new();
    let mut k: usize = 0;
    while k < n
        invariant
            k <= n,
            n * 2 == s.len(),
            forall|i: int| 0 <= i < 2 * k ==> #[trigger] hex_digit(s@[i]) is Some,
            out@ == Seq::new(
                k as nat,
                |i: int| (hex_digit(s@[2 * i])->0 * 16 + hex_digit(s@[2 * i + 1])->0) as u8,
            ),
        decreases n - k,
    {
        let hi = match digit_value(s[2 * k]) {
            Some(d) => d,
            None => return None,
        };
        let lo = match digit_value(s[2 * k + 1]) {
            Some(d) => d,
            None => return None,
        };
        out.push(hi * 16 + lo);
        k = k + 1;
        assert(out@ =~= Seq::new(
            k as nat,
            |i: int| (hex_digit(s@[2 * i])->0 * 16 + hex_digit(s@[2 * i + 1])->0) as u8,
        ));
    }
    Some(out)
}

/// Reads one line of a listing.
fn parse_line(line: &Vec<char>) -> (r: LineKind)
    ensures
        r@ == line_spec(line@),
{
    if !(line.len() >= 2 && line[0] == '0' && line[1] == 'x') {
        return LineKind::Ignored;
    }
    assert(span_until(line@, ':', 0) == 1 + span_until(line@, ':', 1));
    assert(span_until(line@, ':', 1) == 1 + span_until(line@, ':', 2));
    let colon = span_end(line, ':', 0);
    if colon == line.len() {
        return LineKind::Ignored;
    }
    let addr = match read_address(&slice(line, 2, colon)) {
        Some(a) => a,
        None => return LineKind::Malformed,
    };
    let pipe = span_end(line, '|', 0);
    if pipe == line.len() {
        return LineKind::Ignored;
    }
    if pipe < colon {
        return LineKind::Malformed;
    }
    let enc = trim_chars(&slice(line, colon + 1, pipe));
    match read_hex_bytes(&enc) {
        Some(data) => LineKind::Bytes(addr, data),
        None => LineKind::Malformed,
    }
}

/// Writes `data` into `image` from `addr` on, dropping what falls past the end.
fn write_bytes(image: &mut Vec<u8>, addr: usize, data: &Vec<u8>)
    ensures
        final(image)@ == apply_bytes(old(image)@, addr as int, data@),
{
    let ghost before = image@;
    let len = image.len();
    let mut k: usize = 0;
    while k < data.len()
        invariant
            k <= data.len(),
            image@.len() == len == before.len(),
            before == old(image)@,
            image@ == Seq::new(
                len as nat,
                |j: int|
                    if addr <= j < addr + k {
                        data@[j - addr]
                    } else {
                        before[j]
                    },
            ),
        decreases data.len() - k,
    {
        if addr >= len || k >= len - addr {
            assert(image@ =~= apply_bytes(before, addr as int, data@));
            return;
        }
        image.set(addr + k, data[k]);
        k = k + 1;
        assert(image@ =~= Seq::new(
            len as nat,
            |j: int|
                if addr <= j < addr + k {
                    data@[j - addr]
                } else {
                    before[j]
                },
        ));
    }
    assert(image@ =~= apply_bytes(before, addr as int, data@));
}

/// A copy of `mem`.
fn copy_bytes(mem: &Vec<u8>) -> (r: Vec<u8>)
    ensures
        r@ == mem@,
{
    let mut out: Vec<u8> = Vec::new();
    for i in 0..mem.len()
        invariant
            out@ == mem@.take(i as int),
    {
        out.push(mem[i]);
        assert(out@ =~= mem@.take(i + 1));
    }
    assert(out@ =~= mem@);
    out
}

/// The memory after loading the listing `file` into `mem`; a malformed line
/// leaves nothing loaded.
pub fn load_listing(mem: &Vec<u8>, file: &String) -> (r: Result<Vec<u8>, SimError>)
    ensures
        match load_text(mem@, file@) {
            Some(m2) => r is Ok && r->Ok_0@ == m2,
            None => r == Err::<Vec<u8>, SimError>(SimError::MalformedInput),
        },
        r is Ok ==> r->Ok_0@.len() == mem@.len(),
{
    let text = chars_of(file);
    let mut image = copy_bytes(mem);
    let mut start: usize = 0;
    loop
        invariant
            start <= text.len(),
            text@ == file@,
            image@.len() == mem@.len(),
            load_text(mem@, file@) == load_from(image@, text@, start as int),
        decreases text.len() - start,
    {
        let end = span_end(&text, '\n', start);
        let line = slice(&text, start, end);
        match parse_line(&line) {
            LineKind::Malformed => return Err(SimError::MalformedInput),
            LineKind::Ignored => {},
            LineKind::Bytes(addr, data) => write_bytes(&mut image, addr, &data),
        }
        if end >= text.len() {
            return Ok(image);
        }
        start = end + 1;
    }
}

} // verus!
