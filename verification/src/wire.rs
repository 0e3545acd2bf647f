use vstd::prelude::*;
use vstd::arithmetic::power2::{pow2, lemma_pow2_adds, lemma_pow2_strictly_increases};
use vstd::string::{StrSliceExecFns, StringExecFns};

verus! {

/// The hexadecimal digit character for a value below sixteen.
pub open spec fn hex_char(n: int) -> char {
    if n == 0 {
        '0'
    } else if n == 1 {
        '1'
    } else if n == 2 {
        '2'
    } else if n == 3 {
        '3'
    } else if n == 4 {
        '4'
    } else if n == 5 {
        '5'
    } else if n == 6 {
        '6'
    } else if n == 7 {
        '7'
    } else if n == 8 {
        '8'
    } else if n == 9 {
        '9'
    } else if n == 10 {
        'a'
    } else if n == 11 {
        'b'
    } else if n == 12 {
        'c'
    } else if n == 13 {
        'd'
    } else if n == 14 {
        'e'
    } else {
        'f'
    }
}

/// The value of a lowercase hexadecimal digit character, or a negative
/// number for any other character.
pub open spec fn hex_val(c: char) -> int {
    if c == '0' {
        0
    } else if c == '1' {
        1
    } else if c == '2' {
        2
    } else if c == '3' {
        3
    } else if c == '4' {
        4
    } else if c == '5' {
        5
    } else if c == '6' {
        6
    } else if c == '7' {
        7
    } else if c == '8' {
        8
    } else if c == '9' {
        9
    } else if c == 'a' {
        10
    } else if c == 'b' {
        11
    } else if c == 'c' {
        12
    } else if c == 'd' {
        13
    } else if c == 'e' {
        14
    } else if c == 'f' {
        15
    } else {
        -1
    }
}

/// The nibble of `x` at position `i`, counting from the most significant.
pub open spec fn u64_nibble(x: u64, i: int) -> u64 {
    (x >> (((15 - i) * 4) as u64)) & 0xf
}

/// The sixteen-character lowercase hexadecimal rendering of `x`,
/// most significant nibble first.
pub open spec fn u64_hex(x: u64) -> Seq<char> {
    Seq::new(16, |i: int| hex_char(u64_nibble(x, i) as int))
}

/// Whether every character of `s` is a lowercase hexadecimal digit.
pub open spec fn hex_seq_ok(s: Seq<char>) -> bool {
    forall|i: int| 0 <= i < s.len() ==> hex_val(s[i]) >= 0
}

/// The value of a sequence of hexadecimal digits, most significant first.
pub open spec fn hex_seq_value(s: Seq<char>) -> int
    decreases s.len(),
{
    if s.len() == 0 {
        0
    } else {
        hex_seq_value(s.drop_last()) * 16 + hex_val(s.last())
    }
}

proof fn lemma_hex_char_val(n: int)
    requires
        0 <= n < 16,
    ensures
        hex_val(hex_char(n)) == n,
{
}

/// A sequence of hexadecimal digits has a value below sixteen to the power
/// of its length.
proof fn lemma_hex_seq_value_bound(s: Seq<char>)
    requires
        hex_seq_ok(s),
    ensures
        0 <= hex_seq_value(s) < pow2((4 * s.len()) as nat),
    decreases s.len(),
{
    vstd::arithmetic::power2::lemma2_to64();
    if s.len() == 0 {
    } else {
        assert(hex_seq_ok(s.drop_last()));
        lemma_hex_seq_value_bound(s.drop_last());
        lemma_pow2_adds((4 * (s.len() - 1)) as nat, 4);
    }
}

/// The hexadecimal rendering of `x` is made of hexadecimal digits and has
/// value `x`: rendering and digit-value are mutually inverse.
pub proof fn lemma_u64_hex_value(x: u64)
    ensures
        u64_hex(x).len() == 16,
        hex_seq_ok(u64_hex(x)),
        hex_seq_value(u64_hex(x)) == x,
{
    assert forall|i: int| 0 <= i < 16 implies hex_val(u64_hex(x)[i]) >= 0 by {
        let s = ((15 - i) * 4) as u64;
        assert((x >> s) & 0xf < 16) by (bit_vector);
        lemma_hex_char_val(u64_nibble(x, i) as int);
    }
    lemma_u64_hex_prefix(x, 16);
    assert(u64_hex(x).take(16) =~= u64_hex(x));
    assert(x >> 0u64 == x) by (bit_vector);
}

/// The value of the first `j` rendered nibbles equals `x` shifted right by
/// the remaining nibbles.
proof fn lemma_u64_hex_prefix(x: u64, j: int)
    requires
        0 <= j <= 16,
    ensures
        hex_seq_value(u64_hex(x).take(j)) == x >> (((16 - j) * 4) as u64),
    decreases j,
{
    if j == 0 {
        assert(u64_hex(x).take(0) =~= Seq::<char>::empty());
        assert(x >> 64u64 == 0) by (bit_vector);
    } else {
        lemma_u64_hex_prefix(x, j - 1);
        let prev = u64_hex(x).take(j - 1);
        let cur = u64_hex(x).take(j);
        assert(cur.drop_last() =~= prev);
        assert(cur.last() == hex_char(u64_nibble(x, j - 1) as int));
        let s: u64 = ((16 - j) * 4) as u64;
        assert((x >> s) & 0xf < 16) by (bit_vector);
        lemma_hex_char_val(u64_nibble(x, j - 1) as int);
        let s4: u64 = ((17 - j) * 4) as u64;
        assert(x >> s4 == (x >> s) >> 4u64) by (bit_vector)
            requires
                s <= 60,
                s4 == s + 4,
        ;
        let y: u64 = x >> s;
        assert((y >> 4u64) * 16 + (y & 0xf) == y) by (bit_vector);
    }
}

/// The lowercase hexadecimal digit for a value below sixteen.
fn hex_digit_str(n: u64) -> (r: &'static str)
    requires
        n < 16,
    ensures
        r@ =~= seq![hex_char(n as int)],
{
    proof {
        reveal_strlit("0");
        reveal_strlit("1");
        reveal_strlit("2");
        reveal_strlit("3");
        reveal_strlit("4");
        reveal_strlit("5");
        reveal_strlit("6");
        reveal_strlit("7");
        reveal_strlit("8");
        reveal_strlit("9");
        reveal_strlit("a");
        reveal_strlit("b");
        reveal_strlit("c");
        reveal_strlit("d");
        reveal_strlit("e");
        reveal_strlit("f");
    }
    match n {
        0 => "0",
        1 => "1",
        2 => "2",
        3 => "3",
        4 => "4",
        5 => "5",
        6 => "6",
        7 => "7",
        8 => "8",
        9 => "9",
        10 => "a",
        11 => "b",
        12 => "c",
        13 => "d",
        14 => "e",
        _ => "f",
    }
}

/// Appends the sixteen-character hexadecimal rendering of `x` to `out`.
pub fn push_u64_hex(out: &mut String, x: u64)
    ensures
        final(out)@ == old(out)@ + u64_hex(x),
{
    let mut i: usize = 0;
    while i < 16
        invariant
            i <= 16,
            out@ == old(out)@ + u64_hex(x).take(i as int),
        decreases 16 - i,
    {
        let shift: u64 = ((15 - i) as u64) * 4;
        let nib: u64 = (x >> shift) & 0xf;
        proof {
            assert((x >> shift) & 0xf < 16) by (bit_vector);
            assert(nib == u64_nibble(x, i as int));
        }
        let d = hex_digit_str(nib);
        out.append(d);
        proof {
            assert(u64_hex(x).take((i + 1) as int) =~= u64_hex(x).take(i as int) + d@);
        }
        i += 1;
    }
    proof {
        assert(u64_hex(x).take(16) =~= u64_hex(x));
    }
}

/// The value of a lowercase hexadecimal digit character.
pub(crate) fn hex_char_val(c: char) -> (r: Option<u8>)
    ensures
        r matches Some(v) ==> v as int == hex_val(c),
        r is None ==> hex_val(c) < 0,
{
    match c {
        '0' => Some(0),
        '1' => Some(1),
        '2' => Some(2),
        '3' => Some(3),
        '4' => Some(4),
        '5' => Some(5),
        '6' => Some(6),
        '7' => Some(7),
        '8' => Some(8),
        '9' => Some(9),
        'a' => Some(10),
        'b' => Some(11),
        'c' => Some(12),
        'd' => Some(13),
        'e' => Some(14),
        'f' => Some(15),
        _ => None,
    }
}

/// Reads the sixteen hexadecimal characters of `s` starting at `from` as a
/// number, or nothing if any of them is not a lowercase hexadecimal digit.
pub fn parse_u64_hex(s: &str, from: usize) -> (r: Option<u64>)
    requires
        from + 16 <= s@.len(),
        s@.len() <= usize::MAX,
    ensures
        r matches Some(v) ==> {
            &&& hex_seq_ok(s@.subrange(from as int, from + 16))
            &&& v as int == hex_seq_value(s@.subrange(from as int, from + 16))
        },
        r is None ==> !hex_seq_ok(s@.subrange(from as int, from + 16)),
{
    let ghost sub = s@.subrange(from as int, from + 16);
    let mut acc: u64 = 0;
    let mut i: usize = 0;
    while i < 16
        invariant
            from + 16 <= s@.len(),
            s@.len() <= usize::MAX,
            sub == s@.subrange(from as int, from + 16),
            i <= 16,
            hex_seq_ok(sub.take(i as int)),
            acc as int == hex_seq_value(sub.take(i as int)),
        decreases 16 - i,
    {
        let c = s.get_char(from + i);
        proof {
            assert(c == sub[i as int]);
        }
        match hex_char_val(c) {
            Some(d) => {
                proof {
                    lemma_hex_seq_value_bound(sub.take(i as int));
                    lemma_pow2_adds((4 * i) as nat, 4);
                    vstd::arithmetic::power2::lemma2_to64();
                    vstd::arithmetic::power2::lemma2_to64_rest();
                    if i < 15 {
                        lemma_pow2_strictly_increases((4 * i + 4) as nat, 64);
                    }
                    assert(sub.take((i + 1) as int).drop_last() =~= sub.take(i as int));
                }
                acc = acc * 16 + (d as u64);
                proof {
                    assert(hex_seq_ok(sub.take((i + 1) as int)));
                }
            },
            None => {
                proof {
                    assert(hex_val(sub[i as int]) < 0);
                }
                return None;
            },
        }
        i += 1;
    }
    proof {
        assert(sub.take(16) =~= sub);
    }
    Some(acc)
}

} // verus!
