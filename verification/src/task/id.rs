//! Task identifiers as text: the 128-bit value in the hyphenated lower-case
//! hexadecimal form of a UUID (`xxxxxxxx-xxxx-xxxx-xxxx-xxxxxxxxxxxx`).

use vstd::prelude::*;

verus! {

/// The lower-case hexadecimal digit for a value below sixteen.
pub open spec fn hex_char(d: nat) -> char {
    if d < 10 {
        (d + 48) as char
    } else {
        (d + 87) as char
    }
}

/// The last `n` hexadecimal digits of `v`, most significant first, with
/// leading zeros.
pub open spec fn hex_digits(v: nat, n: nat) -> Seq<char>
    decreases n,
{
    if n == 0 {
        Seq::empty()
    } else {
        hex_digits(v / 16, (n - 1) as nat).push(hex_char(v % 16))
    }
}

/// The hyphenated text of an identifier: its 32 hexadecimal digits in groups
/// of 8, 4, 4, 4 and 12.
pub open spec fn id_text(id: u128) -> Seq<char> {
    let h = hex_digits(id as nat, 32);
    h.subrange(0, 8) + "-"@ + h.subrange(8, 12) + "-"@ + h.subrange(12, 16) + "-"@ + h.subrange(16, 20)
        + "-"@ + h.subrange(20, 32)
}

fn hex_digit_char(d: u128) -> (c: char)
    requires
        d < 16,
    ensures
        c == hex_char(d as nat),
{
    let b = d as u8;
    if b < 10 {
        (b + 48) as char
    } else {
        (b + 87) as char
    }
}

fn hex_digit_chars(id: u128) -> (v: Vec<char>)
    ensures
        v@ == hex_digits(id as nat, 32),
{
    let mut digits: Vec<char> = Vec::new();
    let mut k: usize = 0;
    while k < 32
        invariant
            k <= 32,
            digits@.len() == k,
        decreases 32 - k,
    {
        digits.push('0');
        k = k + 1;
    }
    let mut v: u128 = id;
    let mut k: usize = 0;
    while k < 32
        invariant
            k <= 32,
            digits@.len() == 32,
            hex_digits(id as nat, 32) == hex_digits(v as nat, (32 - k) as nat) + digits@.subrange(
                32 - k,
                32,
            ),
        decreases 32 - k,
    {
        let d = v % 16;
        let c = hex_digit_char(d);
        let ghost rest = hex_digits((v / 16) as nat, (31 - k) as nat);
        let ghost tail = digits@.subrange(32 - k, 32);
        assert(hex_digits(v as nat, (32 - k) as nat) == rest.push(c));
        digits.set(31 - k, c);
        assert(digits@.subrange(31 - k, 32) =~= seq![c] + tail);
        assert(rest.push(c) + tail =~= rest + (seq![c] + tail));
        v = v / 16;
        k = k + 1;
    }
    assert(hex_digits(v as nat, 0) =~= Seq::<char>::empty());
    assert(digits@.subrange(0, 32) =~= digits@);
    digits
}

proof fn lemma_hex_digits_len(v: nat, n: nat)
    ensures
        hex_digits(v, n).len() == n,
    decreases n,
{
    if n > 0 {
        lemma_hex_digits_len(v / 16, (n - 1) as nat);
    }
}

fn push_digits(s: &mut String, h: &Vec<char>, from: usize, to: usize)
    requires
        from <= to <= h@.len(),
    ensures
        final(s)@ == old(s)@ + h@.subrange(from as int, to as int),
{
    let mut i: usize = from;
    while i < to
        invariant
            from <= i <= to <= h@.len(),
            s@ == old(s)@ + h@.subrange(from as int, i as int),
        decreases to - i,
    {
        s.push(h[i]);
        i = i + 1;
        assert(s@ =~= old(s)@ + h@.subrange(from as int, i as int));
    }
}

/// The hyphenated text of an identifier, as `Uuid`'s `{}` writes it.
pub fn id_string(id: u128) -> (s: String)
    ensures
        s@ == id_text(id),
{
    let h = hex_digit_chars(id);
    proof {
        lemma_hex_digits_len(id as nat, 32);
    }
    let mut s = String::new();
    push_digits(&mut s, &h, 0, 8);
    s.append("-");
    push_digits(&mut s, &h, 8, 12);
    s.append("-");
    push_digits(&mut s, &h, 12, 16);
    s.append("-");
    push_digits(&mut s, &h, 16, 20);
    s.append("-");
    push_digits(&mut s, &h, 20, 32);
    assert(s@ =~= id_text(id));
    s
}

/// The first eight characters of an identifier's text, by which listings
/// show a task.
pub fn short_id(id: u128) -> (s: String)
    ensures
        s@ == id_text(id).subrange(0, 8),
{
    let h = hex_digit_chars(id);
    proof {
        lemma_hex_digits_len(id as nat, 32);
    }
    let mut s = String::new();
    push_digits(&mut s, &h, 0, 8);
    assert(s@ =~= id_text(id).subrange(0, 8));
    s
}

} // verus!
