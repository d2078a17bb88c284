//! Writing numbers, bytes and string literals as SQL text.
use vstd::prelude::*;
use crate::render::{decimal, digit_char, escape_char, hex_char, hex_sql, signed_decimal};

verus! {

/// Appends the hexadecimal digit of `k`.
pub fn write_hex_digit(sql: &mut String, k: u8)
    requires
        k < 16,
    ensures
        final(sql)@ == old(sql)@ + seq![hex_char(k as nat)],
{
    proof {
        reveal_strlit("0"); reveal_strlit("1"); reveal_strlit("2"); reveal_strlit("3");
        reveal_strlit("4"); reveal_strlit("5"); reveal_strlit("6"); reveal_strlit("7");
        reveal_strlit("8"); reveal_strlit("9"); reveal_strlit("A"); reveal_strlit("B");
        reveal_strlit("C"); reveal_strlit("D"); reveal_strlit("E"); reveal_strlit("F");
    }
    let s = if k == 0 { "0" } else if k == 1 { "1" } else if k == 2 { "2" } else if k == 3 { "3" }
        else if k == 4 { "4" } else if k == 5 { "5" } else if k == 6 { "6" } else if k == 7 { "7" }
        else if k == 8 { "8" } else if k == 9 { "9" } else if k == 10 { "A" } else if k == 11 { "B" }
        else if k == 12 { "C" } else if k == 13 { "D" } else if k == 14 { "E" } else { "F" };
    sql.append(s);
}

/// Appends `x` in decimal.
pub fn write_decimal(sql: &mut String, x: u128)
    ensures
        final(sql)@ == old(sql)@ + decimal(x as nat),
    decreases x,
{
    if x >= 10 {
        write_decimal(sql, x / 10);
    }
    write_hex_digit(sql, (x % 10) as u8);
    proof {
        assert(hex_char((x % 10) as nat) == digit_char((x % 10) as nat));
        assert(old(sql)@ + decimal(x as nat) =~= final(sql)@);
    }
}

/// Appends `x` in decimal, with a minus sign when negative.
pub fn write_signed(sql: &mut String, x: i128)
    ensures
        final(sql)@ == old(sql)@ + signed_decimal(x as int),
{
    if x < 0 {
        proof { reveal_strlit("-"); }
        sql.append("-");
        let m: u128 = if x == i128::MIN { (i128::MAX as u128) + 1 } else { (-x) as u128 };
        write_decimal(sql, m);
        assert(final(sql)@ =~= old(sql)@ + signed_decimal(x as int));
    } else {
        write_decimal(sql, x as u128);
    }
}

/// Appends two hexadecimal digits per byte.
#[verifier::rlimit(60)]
pub fn write_hex(sql: &mut String, b: &Vec<u8>)
    ensures
        final(sql)@ == old(sql)@ + hex_sql(b@),
{
    let mut i: usize = 0;
    while i < b.len()
        invariant
            i <= b@.len(),
            sql@ == old(sql)@ + hex_sql(b@.subrange(0, i as int)),
        decreases b@.len() - i,
    {
        let x = b[i];
        write_hex_digit(sql, x / 16);
        write_hex_digit(sql, x % 16);
        proof {
            let p = b@.subrange(0, i + 1);
            assert(p.subrange(0, i as int) =~= b@.subrange(0, i as int));
            assert(sql@ =~= old(sql)@ + hex_sql(p));
        }
        i = i + 1;
    }
    assert(b@.subrange(0, b@.len() as int) =~= b@);
}

/// Appends the characters of `s`, doubling each `q`.
#[verifier::rlimit(60)]
pub fn write_escaped(sql: &mut String, s: &str, q: char)
    ensures
        final(sql)@ == old(sql)@ + escape_char(s@, q),
{
    let len = s.unicode_len();
    let mut i: usize = 0;
    while i < len
        invariant
            len == s@.len(),
            i <= len,
            sql@ == old(sql)@ + escape_char(s@.subrange(0, i as int), q),
        decreases len - i,
    {
        let c = s.get_char(i);
        if c == q {
            push_char(sql, q);
            push_char(sql, q);
        } else {
            sql.append(s.substring_char(i, i + 1));
        }
        proof {
            let p = s@.subrange(0, i + 1);
            assert(p.subrange(0, i as int) =~= s@.subrange(0, i as int));
            assert(s@.subrange(i as int, i + 1) =~= seq![c]);
            assert(sql@ =~= old(sql)@ + escape_char(p, q));
        }
        i = i + 1;
    }
    assert(s@.subrange(0, len as int) =~= s@);
}

/// Relies on `String::push`: appends the one character.
#[verifier::external_body]
pub(crate) fn push_char(sql: &mut String, c: char)
    ensures
        final(sql)@ == old(sql)@.push(c),
{
    sql.push(c);
}

/// Appends `c`, doubled when it is `q`.
pub fn write_char_escaped(sql: &mut String, c: char, q: char)
    ensures
        final(sql)@ == old(sql)@ + escape_char(seq![c], q),
{
    proof {
        let s = seq![c];
        assert(s.subrange(0, 0) =~= Seq::<char>::empty());
        assert(escape_char(s.subrange(0, 0), q) == Seq::<char>::empty());
    }
    if c == q {
        push_char(sql, q);
        push_char(sql, q);
        assert(final(sql)@ =~= old(sql)@ + escape_char(seq![c], q));
    } else {
        push_char(sql, c);
        assert(final(sql)@ =~= old(sql)@ + escape_char(seq![c], q));
    }
}

} // verus!
