//! Building human-readable text from numbers.
use vstd::prelude::*;
use vstd::string::StringExecFns;

use crate::pdctl::{all_digits, digits_value, is_digit};

verus! {

/// The ASCII digit for `d` in `0..10`.
pub open spec fn digit_char(d: int) -> char {
    if d == 0 {
        '0'
    } else if d == 1 {
        '1'
    } else if d == 2 {
        '2'
    } else if d == 3 {
        '3'
    } else if d == 4 {
        '4'
    } else if d == 5 {
        '5'
    } else if d == 6 {
        '6'
    } else if d == 7 {
        '7'
    } else if d == 8 {
        '8'
    } else {
        '9'
    }
}

/// Decimal digits of `v`, most significant first, without leading zeros.
pub open spec fn decimal(v: nat) -> Seq<char>
    decreases v,
{
    if v < 10 {
        seq![digit_char(v as int)]
    } else {
        decimal(v / 10).push(digit_char((v % 10) as int))
    }
}

/// Decimal digits of `v` padded with leading zeros to at least `width`.
pub open spec fn decimal_padded(v: nat, width: nat) -> Seq<char> {
    let d = decimal(v);
    if d.len() >= width {
        d
    } else {
        Seq::new((width - d.len()) as nat, |i: int| '0') + d
    }
}

/// The digit for `d` reads back as `d`.
proof fn lemma_digit_char_reads_back(d: int)
    requires
        0 <= d < 10,
    ensures
        is_digit(digit_char(d)),
        digit_char(d) as nat - '0' as nat == d,
{
}

/// The decimal text of `v` is one or more ASCII digits that read back as
/// `v`.
pub proof fn lemma_decimal_reads_back(v: nat)
    ensures
        decimal(v).len() >= 1,
        all_digits(decimal(v)),
        digits_value(decimal(v)) == v,
    decreases v,
{
    lemma_digit_char_reads_back((v % 10) as int);
    let d = decimal(v);
    if v < 10 {
        assert(d.drop_last() =~= Seq::<char>::empty());
        assert(digits_value(Seq::<char>::empty()) == 0);
        assert(d.last() == digit_char(v as int));
        assert(digits_value(d) == digits_value(d.drop_last()) * 10 + (d.last() as nat - '0' as nat) as nat);
    } else {
        lemma_decimal_reads_back(v / 10);
        assert(d.drop_last() =~= decimal(v / 10));
        assert(d.last() == digit_char((v % 10) as int));
        assert(digits_value(d) == digits_value(d.drop_last()) * 10 + (d.last() as nat - '0' as nat) as nat);
        assert(v == (v / 10) * 10 + v % 10);
        assert forall|i: int| 0 <= i < d.len() implies is_digit(#[trigger] d[i]) by {
            if i < d.len() - 1 {
                assert(d[i] == decimal(v / 10)[i]);
            }
        }
    }
}

/// Leading zeros change neither that the text is digits nor what it reads
/// as.
proof fn lemma_leading_zeros(k: nat, d: Seq<char>)
    requires
        all_digits(d),
    ensures
        all_digits(Seq::new(k, |i: int| '0') + d),
        digits_value(Seq::new(k, |i: int| '0') + d) == digits_value(d),
    decreases d.len() + k,
{
    let z = Seq::new(k, |i: int| '0');
    let t = z + d;
    assert forall|i: int| 0 <= i < t.len() implies is_digit(#[trigger] t[i]) by {
        if i >= k {
            assert(t[i] == d[i - k]);
        }
    }
    if d.len() == 0 {
        if k > 0 {
            assert(t.drop_last() =~= Seq::new((k - 1) as nat, |i: int| '0') + d);
            lemma_leading_zeros((k - 1) as nat, d);
        }
    } else {
        let e = d.drop_last();
        assert forall|i: int| 0 <= i < e.len() implies is_digit(#[trigger] e[i]) by {
            assert(e[i] == d[i]);
        }
        assert(t.drop_last() =~= z + e);
        lemma_leading_zeros(k, e);
    }
}

/// Zero-padded decimal text is ASCII digits, at least `width` of them,
/// that read back as `v`.
pub proof fn lemma_decimal_padded_reads_back(v: nat, width: nat)
    ensures
        decimal_padded(v, width).len() >= width,
        decimal_padded(v, width).len() >= 1,
        all_digits(decimal_padded(v, width)),
        digits_value(decimal_padded(v, width)) == v,
{
    lemma_decimal_reads_back(v);
    let d = decimal(v);
    if d.len() < width {
        lemma_leading_zeros((width - d.len()) as nat, d);
    }
}

/// `part` occurs in `text`.
pub open spec fn has_part(text: Seq<char>, part: Seq<char>) -> bool {
    exists|pre: Seq<char>, post: Seq<char>| text == pre + part + post
}

/// A text ends with its last part.
pub broadcast proof fn lemma_has_part_last(x: Seq<char>, part: Seq<char>)
    ensures
        #[trigger] has_part(x + part, part),
{
    assert(x + part =~= x + part + Seq::<char>::empty());
}

/// Appending keeps every part that was there.
pub broadcast proof fn lemma_has_part_extend(x: Seq<char>, y: Seq<char>, part: Seq<char>)
    requires
        has_part(x, part),
    ensures
        #[trigger] has_part(x + y, part),
{
    let (pre, post) = choose|pre: Seq<char>, post: Seq<char>| x == pre + part + post;
    assert(x + y =~= pre + part + (post + y));
}

/// A text begins with its first part.
pub broadcast proof fn lemma_prefix_first(h: Seq<char>, y: Seq<char>)
    ensures
        #[trigger] h.is_prefix_of(h + y),
{
    assert((h + y).subrange(0, h.len() as int) =~= h);
}

/// Appending keeps how a text begins.
pub broadcast proof fn lemma_prefix_extend(t: Seq<char>, y: Seq<char>, h: Seq<char>)
    requires
        h.is_prefix_of(t),
    ensures
        #[trigger] h.is_prefix_of(t + y),
{
    assert((t + y).subrange(0, h.len() as int) =~= t.subrange(0, h.len() as int));
}

fn digit_str(d: u64) -> (r: &'static str)
    requires
        d < 10,
    ensures
        r@ == seq![digit_char(d as int)],
{
    proof {
        reveal_strlit("0");
        reveal_strlit("1");
        reveal_strlit("2");
        reveal_strlit("3");
        reveal_strlit("4");
        reveal_strlit("5");
        reveal_strlit("6");
        reveal_strlit("7");
        reveal_strlit("8");
        reveal_strlit("9");
    }
    match d {
        0 => "0",
        1 => "1",
        2 => "2",
        3 => "3",
        4 => "4",
        5 => "5",
        6 => "6",
        7 => "7",
        8 => "8",
        _ => "9",
    }
}

/// Appends `t` to `s`.
pub fn push_str(s: &mut String, t: &str)
    ensures
        final(s)@ == old(s)@ + t@,
{
    s.append(t);
}

/// Appends the decimal digits of `v` to `s`.
pub fn push_decimal(s: &mut String, v: u64)
    ensures
        final(s)@ == old(s)@ + decimal(v as nat),
    decreases v,
{
    if v >= 10 {
        push_decimal(s, v / 10);
    }
    let ghost mid = s@;
    push_str(s, digit_str(v % 10));
    assert(s@ =~= mid.push(digit_char((v % 10) as int)));
}

proof fn lemma_decimal_short(v: nat)
    ensures
        v < 10 ==> decimal(v).len() == 1,
        10 <= v < 100 ==> decimal(v).len() == 2,
        100 <= v < 1000 ==> decimal(v).len() == 3,
    decreases v,
{
    if v >= 10 {
        lemma_decimal_short(v / 10);
        assert(decimal(v).len() == decimal(v / 10).len() + 1);
        if v < 100 {
            assert(v / 10 < 10);
        } else if v < 1000 {
            assert(10 <= v / 10 < 100);
        }
    }
}

/// A number below 100 padded to two digits, or below 1000 padded to three,
/// takes exactly that many.
pub proof fn lemma_decimal_padded_short(v: nat, width: nat)
    requires
        (width == 2 && v < 100) || (width == 3 && v < 1000),
    ensures
        decimal_padded(v, width).len() == width,
{
    lemma_decimal_short(v);
}

/// Appends the decimal digits of `v < 1000`, zero-padded to at least
/// `width <= 3` digits.
pub fn push_decimal_padded(s: &mut String, v: u64, width: usize)
    requires
        v < 1000,
        width <= 3,
    ensures
        final(s)@ == old(s)@ + decimal_padded(v as nat, width as nat),
{
    let ghost start = s@;
    proof {
        lemma_decimal_short(v as nat);
    }
    let len: usize = if v < 10 {
        1
    } else if v < 100 {
        2
    } else {
        3
    };
    let mut pad: usize = 0;
    if len < width {
        while pad < width - len
            invariant
                len < width,
                pad <= width - len,
                s@ == start + Seq::new(pad as nat, |i: int| '0'),
            decreases width - len - pad,
        {
            proof {
                reveal_strlit("0");
            }
            push_str(s, "0");
            pad = pad + 1;
            assert(s@ =~= start + Seq::new(pad as nat, |i: int| '0'));
        }
    }
    push_decimal(s, v);
    assert(s@ =~= start + decimal_padded(v as nat, width as nat));
}

/// The lowercase hexadecimal digit for `d` in `0..16`.
pub open spec fn hex_char(d: int) -> char {
    if d < 10 {
        digit_char(d)
    } else if d == 10 {
        'a'
    } else if d == 11 {
        'b'
    } else if d == 12 {
        'c'
    } else if d == 13 {
        'd'
    } else if d == 14 {
        'e'
    } else {
        'f'
    }
}

/// Lowercase hexadecimal digits of `v`, without leading zeros.
pub open spec fn hex(v: nat) -> Seq<char>
    decreases v,
{
    if v < 16 {
        seq![hex_char(v as int)]
    } else {
        hex(v / 16).push(hex_char((v % 16) as int))
    }
}

/// `t` padded with `c` on the left to at least `width` characters.
pub open spec fn pad_front(t: Seq<char>, width: nat, c: char) -> Seq<char> {
    if t.len() >= width {
        t
    } else {
        Seq::new((width - t.len()) as nat, |i: int| c) + t
    }
}

/// `t` padded with spaces on the right to at least `width` characters.
pub open spec fn pad_back(t: Seq<char>, width: nat) -> Seq<char> {
    if t.len() >= width {
        t
    } else {
        t + Seq::new((width - t.len()) as nat, |i: int| ' ')
    }
}

/// `v` in decimal with its sign always shown: `+` for zero and up.
pub open spec fn signed_decimal(v: int) -> Seq<char> {
    if v < 0 {
        "-"@ + decimal((-v) as nat)
    } else {
        "+"@ + decimal(v as nat)
    }
}

fn hex_str(d: u64) -> (r: &'static str)
    requires
        d < 16,
    ensures
        r@ == seq![hex_char(d as int)],
{
    proof {
        reveal_strlit("a");
        reveal_strlit("b");
        reveal_strlit("c");
        reveal_strlit("d");
        reveal_strlit("e");
        reveal_strlit("f");
    }
    if d < 10 {
        digit_str(d)
    } else if d == 10 {
        "a"
    } else if d == 11 {
        "b"
    } else if d == 12 {
        "c"
    } else if d == 13 {
        "d"
    } else if d == 14 {
        "e"
    } else {
        "f"
    }
}

/// Appends the lowercase hexadecimal digits of `v` to `s`.
pub fn push_hex(s: &mut String, v: u64)
    ensures
        final(s)@ == old(s)@ + hex(v as nat),
    decreases v,
{
    if v >= 16 {
        push_hex(s, v / 16);
    }
    let ghost mid = s@;
    push_str(s, hex_str(v % 16));
    assert(s@ =~= mid.push(hex_char((v % 16) as int)));
}

/// Appends `n` copies of the one-character `c`.
fn push_repeat(s: &mut String, c: &str, n: usize)
    requires
        c@.len() == 1,
    ensures
        final(s)@ == old(s)@ + Seq::new(n as nat, |i: int| c@[0]),
{
    let mut k: usize = 0;
    while k < n
        invariant
            k <= n,
            c@.len() == 1,
            s@ == old(s)@ + Seq::new(k as nat, |i: int| c@[0]),
        decreases n - k,
    {
        push_str(s, c);
        k = k + 1;
        assert(s@ =~= old(s)@ + Seq::new(k as nat, |i: int| c@[0]));
    }
}

/// Appends `t` padded with spaces on the right to `width` characters.
pub fn push_padded_back(s: &mut String, t: &str, width: usize)
    ensures
        final(s)@ == old(s)@ + pad_back(t@, width as nat),
{
    proof {
        reveal_strlit(" ");
    }
    push_str(s, t);
    let len = t.unicode_len();
    if len < width {
        push_repeat(s, " ", width - len);
    }
    assert(s@ =~= old(s)@ + pad_back(t@, width as nat));
}

/// Appends `t` padded with spaces on the left to `width` characters.
pub fn push_padded_front(s: &mut String, t: &str, width: usize)
    ensures
        final(s)@ == old(s)@ + pad_front(t@, width as nat, ' '),
{
    proof {
        reveal_strlit(" ");
    }
    let len = t.unicode_len();
    if len < width {
        push_repeat(s, " ", width - len);
    }
    push_str(s, t);
    assert(s@ =~= old(s)@ + pad_front(t@, width as nat, ' '));
}

/// Appends `v` in decimal with its sign always shown.
pub fn push_signed(s: &mut String, v: i16)
    ensures
        final(s)@ == old(s)@ + signed_decimal(v as int),
{
    proof {
        reveal_strlit("-");
        reveal_strlit("+");
    }
    if v < 0 {
        push_str(s, "-");
        push_decimal(s, (-(v as i32)) as u64);
    } else {
        push_str(s, "+");
        push_decimal(s, v as u64);
    }
    assert(s@ =~= old(s)@ + signed_decimal(v as int));
}

/// The decimal digits of `v` as a string.
pub fn decimal_string(v: u64) -> (r: String)
    ensures
        r@ == decimal(v as nat),
{
    let mut s = String::new();
    push_decimal(&mut s, v);
    assert(s@ =~= decimal(v as nat));
    s
}

/// Appends `0x` and the lowercase hexadecimal digits of `v`, zero-padded
/// so that the whole, prefix included, is at least `width` characters.
pub fn push_prefixed_hex(s: &mut String, v: u64, width: usize)
    requires
        width >= 2,
    ensures
        final(s)@ == old(s)@ + "0x"@ + pad_front(hex(v as nat), (width - 2) as nat, '0'),
{
    proof {
        reveal_strlit("0x");
        reveal_strlit("0");
    }
    let mut digits = String::new();
    push_hex(&mut digits, v);
    assert(digits@ =~= hex(v as nat));
    push_str(s, "0x");
    let len = digits.unicode_len();
    if len < width - 2 {
        push_repeat(s, "0", width - 2 - len);
    }
    push_str(s, digits.as_str());
    assert(s@ =~= old(s)@ + "0x"@ + pad_front(hex(v as nat), (width - 2) as nat, '0'));
}

} // verus!
