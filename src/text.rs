//! Hexadecimal and decimal rendering of integers into strings.

use vstd::prelude::*;

verus! {

/// The hexadecimal digits of `v`, most significant first; zero is one digit.
pub open spec fn hex_values(v: nat) -> Seq<u8>
    decreases v,
{
    if v < 16 {
        seq![v as u8]
    } else {
        hex_values(v / 16).push((v % 16) as u8)
    }
}

/// The decimal digits of `v`, most significant first; zero is one digit.
pub open spec fn dec_values(v: nat) -> Seq<u8>
    decreases v,
{
    if v < 10 {
        seq![v as u8]
    } else {
        dec_values(v / 10).push((v % 10) as u8)
    }
}

/// The digits of `v` in base 16 or 10.
pub open spec fn digit_values(v: nat, base: nat) -> Seq<u8> {
    if base == 16 {
        hex_values(v)
    } else {
        dec_values(v)
    }
}

/// The lowercase character of a digit below sixteen.
pub open spec fn hex_char(d: u8) -> char {
    if d == 0 {
        '0'
    } else if d == 1 {
        '1'
    } else if d == 2 {
        '2'
    } else if d == 3 {
        '3'
    } else if d == 4 {
        '4'
    } else if d == 5 {
        '5'
    } else if d == 6 {
        '6'
    } else if d == 7 {
        '7'
    } else if d == 8 {
        '8'
    } else if d == 9 {
        '9'
    } else if d == 10 {
        'a'
    } else if d == 11 {
        'b'
    } else if d == 12 {
        'c'
    } else if d == 13 {
        'd'
    } else if d == 14 {
        'e'
    } else {
        'f'
    }
}

/// The characters of a digit sequence.
pub open spec fn digits_text(ds: Seq<u8>) -> Seq<char> {
    ds.map_values(|d: u8| hex_char(d))
}

/// `s` padded on the left with zeros to at least `width` characters.
pub open spec fn zero_pad(s: Seq<char>, width: nat) -> Seq<char> {
    if s.len() >= width {
        s
    } else {
        Seq::new((width - s.len()) as nat, |i: int| '0') + s
    }
}

/// `v` in lowercase hexadecimal, zero-padded to `width` (as `{:0width$x}`).
pub open spec fn hex_text(v: nat, width: nat) -> Seq<char> {
    zero_pad(digits_text(digit_values(v, 16)), width)
}

/// `v` in decimal (as `{}`).
pub open spec fn dec_text(v: nat) -> Seq<char> {
    digits_text(digit_values(v, 10))
}

/// `"true"` or `"false"`.
pub open spec fn bool_text(b: bool) -> Seq<char> {
    if b {
        "true"@
    } else {
        "false"@
    }
}

proof fn lemma_digits_below_base(v: nat, base: nat)
    requires
        base == 16 || base == 10,
    ensures
        forall|i: int| 0 <= i < digit_values(v, base).len() ==> #[trigger] digit_values(v, base)[i] < base,
    decreases v,
{
    if v >= base {
        lemma_digits_below_base(v / base, base);
        let prefix = digit_values(v / base, base);
        assert(digit_values(v, base) == prefix.push((v % base) as u8));
        assert forall|i: int| 0 <= i < digit_values(v, base).len() implies #[trigger] digit_values(
            v,
            base,
        )[i] < base by {
            if i < prefix.len() {
                assert(prefix[i] < base);
            }
        }
    }
}

/// The string of one digit below sixteen.
fn digit_str(d: u8) -> (r: &'static str)
    requires
        d < 16,
    ensures
        r@ == seq![hex_char(d)],
{
    proof {
        reveal_strlit("0");
        reveal_strlit("1");
        reveal_strlit("2");
        reveal_strlit("3");
        reveal_strlit("4");
        reveal_strlit("5");
        reveal_strlit("6");
        reveal_strlit("7");
        reveal_strlit("8");
        reveal_strlit("9");
        reveal_strlit("a");
        reveal_strlit("b");
        reveal_strlit("c");
        reveal_strlit("d");
        reveal_strlit("e");
        reveal_strlit("f");
    }
    match d {
        0 => "0",
        1 => "1",
        2 => "2",
        3 => "3",
        4 => "4",
        5 => "5",
        6 => "6",
        7 => "7",
        8 => "8",
        9 => "9",
        10 => "a",
        11 => "b",
        12 => "c",
        13 => "d",
        14 => "e",
        _ => "f",
    }
}

/// The digits of `v` in `base`.
fn digits_of(v: u64, base: u64) -> (r: Vec<u8>)
    requires
        base == 16 || base == 10,
    ensures
        r@ == digit_values(v as nat, base as nat),
{
    let mut rest = v;
    let mut tail: Vec<u8> = Vec::new();
    loop
        invariant
            base == 16 || base == 10,
            digit_values(v as nat, base as nat) == digit_values(rest as nat, base as nat) + tail@,
        decreases rest,
    {
        if rest < base {
            tail.insert(0, #[verifier::truncate] (rest as u8));
            assert(tail@ =~= digit_values(rest as nat, base as nat) + tail@.drop_first());
            return tail;
        }
        let ghost old_tail = tail@;
        tail.insert(0, #[verifier::truncate] ((rest % base) as u8));
        assert(tail@ =~= seq![(rest % base) as u8] + old_tail);
        assert(digit_values(rest as nat, base as nat) == digit_values(
            (rest / base) as nat,
            base as nat,
        ).push((rest % base) as u8));
        assert(digit_values(rest as nat, base as nat) + old_tail =~= digit_values(
            (rest / base) as nat,
            base as nat,
        ) + tail@);
        rest = rest / base;
    }
}

/// Appends the characters of `ds`.
fn push_digits(out: &mut String, ds: &Vec<u8>)
    requires
        forall|i: int| 0 <= i < ds@.len() ==> #[trigger] ds@[i] < 16,
    ensures
        final(out)@ == old(out)@ + digits_text(ds@),
{
    for k in 0..ds.len()
        invariant
            forall|i: int| 0 <= i < ds@.len() ==> #[trigger] ds@[i] < 16,
            out@ == old(out)@ + digits_text(ds@.take(k as int)),
    {
        out.append(digit_str(ds[k]));
        assert(digits_text(ds@.take(k + 1)) =~= digits_text(ds@.take(k as int)).push(
            hex_char(ds@[k as int]),
        ));
        assert(out@ =~= old(out)@ + digits_text(ds@.take(k + 1)));
    }
    assert(ds@.take(ds@.len() as int) =~= ds@);
}

/// Appends `v` in lowercase hexadecimal, zero-padded to `width`.
pub fn push_hex(out: &mut String, v: u64, width: usize)
    ensures
        final(out)@ == old(out)@ + hex_text(v as nat, width as nat),
{
    let ds = digits_of(v, 16);
    proof {
        lemma_digits_below_base(v as nat, 16);
    }
    let ghost text = digits_text(ds@);
    let mut k = ds.len();
    while k < width
        invariant
            ds.len() <= k <= width || (k == ds.len() && width < k),
            out@ == old(out)@ + Seq::new((k - ds.len()) as nat, |i: int| '0'),
        decreases width - k,
    {
        proof {
            reveal_strlit("0");
        }
        out.append("0");
        k = k + 1;
        assert(out@ =~= old(out)@ + Seq::new((k - ds.len()) as nat, |i: int| '0'));
    }
    let ghost padded = out@;
    push_digits(out, &ds);
    assert(out@ =~= old(out)@ + hex_text(v as nat, width as nat));
}

/// Appends `v` in decimal.
pub fn push_dec(out: &mut String, v: u64)
    ensures
        final(out)@ == old(out)@ + dec_text(v as nat),
{
    let ds = digits_of(v, 10);
    proof {
        lemma_digits_below_base(v as nat, 10);
    }
    push_digits(out, &ds);
}

/// Appends `"true"` or `"false"`.
pub fn push_bool(out: &mut String, b: bool)
    ensures
        final(out)@ == old(out)@ + bool_text(b),
{
    if b {
        out.append("true");
    } else {
        out.append("false");
    }
}

} // verus!
