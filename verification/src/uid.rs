use vstd::prelude::*;
use vstd::string::StrSliceExecFns;
use vstd::string::StringExecFns;

verus! {

/// The character for one decimal digit value.
pub open spec fn digit_char(d: int) -> char
    recommends
        0 <= d <= 9,
{
    if d == 0 {
        '0'
    } else if d == 1 {
        '1'
    } else if d == 2 {
        '2'
    } else if d == 3 {
        '3'
    } else if d == 4 {
        '4'
    } else if d == 5 {
        '5'
    } else if d == 6 {
        '6'
    } else if d == 7 {
        '7'
    } else if d == 8 {
        '8'
    } else {
        '9'
    }
}

/// The numeric value of one decimal digit character.
pub open spec fn digit_value(c: char) -> int {
    c as u32 - 48
}

/// Whether `c` is a decimal digit character.
pub open spec fn is_digit(c: char) -> bool {
    48 <= c as u32 <= 57
}

/// Whether every character of `s` is a decimal digit.
pub open spec fn all_digits(s: Seq<char>) -> bool {
    forall|i: int| 0 <= i < s.len() ==> is_digit(s[i])
}

/// The decimal rendering of `n`, most significant digit first, no leading
/// zeros (a single `'0'` for zero itself).
pub open spec fn dec_str(n: nat) -> Seq<char>
    decreases n,
{
    if n < 10 {
        seq![digit_char(n as int)]
    } else {
        dec_str(n / 10).push(digit_char((n % 10) as int))
    }
}

/// The numeric value of a sequence of decimal digit characters, read most
/// significant digit first.
pub open spec fn digits_value(s: Seq<char>) -> int
    decreases s.len(),
{
    if s.len() == 0 {
        0
    } else {
        digits_value(s.drop_last()) * 10 + digit_value(s.last())
    }
}

/// Whether a node identity follows the convention the unique-id generator
/// demands: one prefix character, then decimal digits whose value fits in 64
/// bits. The generator's bit packing reads the node's number out of this
/// suffix.
pub open spec fn valid_numeric_suffix(id: Seq<char>) -> bool {
    &&& id.len() >= 2
    &&& all_digits(id.skip(1))
    &&& digits_value(id.skip(1)) <= u64::MAX
}

/// The node number encoded in an identity's decimal suffix.
pub open spec fn numeric_suffix(id: Seq<char>) -> u64
    recommends
        valid_numeric_suffix(id),
{
    digits_value(id.skip(1)) as u64
}

/// The bit layout of a generated unique id: the millisecond timestamp's low
/// bits shifted to the high end of the word, the node number's low eight bits
/// at positions 8 to 15, and the wrapping call counter at positions 0 to 7.
pub open spec fn pack_unique_id(millis: u64, node_num: u64, counter: u8) -> u64 {
    ((millis << 30) >> 7) | ((node_num << 8) & 0xFF00) | (counter as u64)
}

/// The wrapping increment of the eight-bit unique-id call counter.
pub open spec fn wrap_inc(c: u8) -> u8 {
    if c == 255 {
        0
    } else {
        (c + 1) as u8
    }
}

/// One decimal digit as a string slice.
fn digit_str(d: u8) -> (r: &'static str)
    requires
        d <= 9,
    ensures
        r@ =~= seq![digit_char(d as int)],
{
    match d {
        0 => {
            proof {
                reveal_strlit("0");
            }
            "0"
        },
        1 => {
            proof {
                reveal_strlit("1");
            }
            "1"
        },
        2 => {
            proof {
                reveal_strlit("2");
            }
            "2"
        },
        3 => {
            proof {
                reveal_strlit("3");
            }
            "3"
        },
        4 => {
            proof {
                reveal_strlit("4");
            }
            "4"
        },
        5 => {
            proof {
                reveal_strlit("5");
            }
            "5"
        },
        6 => {
            proof {
                reveal_strlit("6");
            }
            "6"
        },
        7 => {
            proof {
                reveal_strlit("7");
            }
            "7"
        },
        8 => {
            proof {
                reveal_strlit("8");
            }
            "8"
        },
        _ => {
            proof {
                reveal_strlit("9");
            }
            "9"
        },
    }
}

/// Renders `n` in decimal.
pub fn u64_to_dec(n: u64) -> (s: String)
    ensures
        s@ == dec_str(n as nat),
    decreases n,
{
    if n < 10 {
        let s = String::from_str(digit_str(n as u8));
        proof {
            assert(s@ =~= dec_str(n as nat));
        }
        s
    } else {
        let mut s = u64_to_dec(n / 10);
        s.append(digit_str((n % 10) as u8));
        proof {
            assert(s@ =~= dec_str(n as nat));
        }
        s
    }
}

/// The value of a digit sequence only grows as more digits are appended.
proof fn lemma_digits_value_bounds(s: Seq<char>)
    requires
        all_digits(s),
    ensures
        0 <= digits_value(s),
        forall|k: int| 0 <= k <= s.len() ==> digits_value(s.subrange(0, k)) <= digits_value(s),
    decreases s.len(),
{
    if s.len() == 0 {
        assert forall|k: int| 0 <= k <= s.len() implies digits_value(s.subrange(0, k))
            <= digits_value(s) by {
            assert(s.subrange(0, k) =~= s);
        }
    } else {
        let pre = s.drop_last();
        assert(all_digits(pre));
        lemma_digits_value_bounds(pre);
        assert(is_digit(s.last()));
        assert(digits_value(s) >= digits_value(pre));
        assert forall|k: int| 0 <= k <= s.len() implies digits_value(s.subrange(0, k))
            <= digits_value(s) by {
            if k == s.len() {
                assert(s.subrange(0, k) =~= s);
            } else {
                assert(s.subrange(0, k) =~= pre.subrange(0, k));
            }
        }
    }
}

/// Parses the decimal suffix of a node identity: everything after the first
/// character, read as a 64-bit number.
pub fn parse_numeric_suffix(id: &str) -> (r: u64)
    requires
        valid_numeric_suffix(id@),
    ensures
        r == numeric_suffix(id@),
{
    let ghost sfx = id@.skip(1);
    proof {
        lemma_digits_value_bounds(sfx);
    }
    let len = id.unicode_len();
    let mut i: usize = 1;
    let mut acc: u64 = 0;
    while i < len
        invariant
            1 <= i <= len,
            len == id@.len(),
            valid_numeric_suffix(id@),
            sfx == id@.skip(1),
            acc == digits_value(sfx.subrange(0, i - 1)),
            0 <= digits_value(sfx),
            forall|k: int| 0 <= k <= sfx.len() ==> digits_value(sfx.subrange(0, k))
                <= digits_value(sfx),
            digits_value(sfx) <= u64::MAX,
        decreases len - i,
    {
        let c = id.get_char(i);
        assert(is_digit(sfx[i - 1]));
        let d = (c as u32) - 48;
        proof {
            let pre = sfx.subrange(0, i - 1);
            let ext = sfx.subrange(0, i as int);
            assert(ext.drop_last() =~= pre);
            assert(ext.last() == sfx[i - 1]);
            assert(digits_value(ext) == digits_value(pre) * 10 + digit_value(sfx[i - 1]));
            assert(digits_value(ext) <= digits_value(sfx));
        }
        acc = acc * 10 + (d as u64);
        i += 1;
    }
    proof {
        assert(sfx.subrange(0, i - 1) =~= sfx);
    }
    acc
}

/// Packs a millisecond timestamp, a node number and a call counter into one
/// 64-bit unique id.
pub fn unique_id_from_parts(millis: u64, node_num: u64, counter: u8) -> (r: u64)
    ensures
        r == pack_unique_id(millis, node_num, counter),
{
    let part1 = (millis << 30u64) >> 7u64;
    let part2 = (node_num << 8u64) & 0xFF00u64;
    let part3 = counter as u64;
    part1 | part2 | part3
}

/// The wrapping call counter occupies the low eight bits of a packed id
/// untouched by the other parts.
pub proof fn lemma_pack_low_bits(millis: u64, node_num: u64, counter: u8)
    ensures
        pack_unique_id(millis, node_num, counter) & 0xFF == counter as u64,
{
    assert((((millis << 30) >> 7) | ((node_num << 8) & 0xFF00) | (counter as u64)) & 0xFF
        == counter as u64) by (bit_vector);
}

/// The low 34 bits of the millisecond timestamp are recoverable from a packed
/// id: they sit at positions 23 to 56, above the node number and the counter.
pub proof fn lemma_pack_millis_bits(millis: u64, node_num: u64, counter: u8)
    ensures
        (pack_unique_id(millis, node_num, counter) >> 23) & 0x3_FFFF_FFFF == millis
            & 0x3_FFFF_FFFF,
{
    assert((((((millis << 30) >> 7) | ((node_num << 8) & 0xFF00) | (counter as u64)) >> 23)
        & 0x3_FFFF_FFFF) == millis & 0x3_FFFF_FFFF) by (bit_vector);
}

/// A digit character reads back as the digit it renders.
proof fn lemma_digit_roundtrip(d: int)
    requires
        0 <= d <= 9,
    ensures
        digit_value(digit_char(d)) == d,
{
    assert('0' as u32 == 48 && '1' as u32 == 49 && '2' as u32 == 50 && '3' as u32 == 51 && '4'
        as u32 == 52 && '5' as u32 == 53 && '6' as u32 == 54 && '7' as u32 == 55 && '8' as u32
        == 56 && '9' as u32 == 57);
}

/// Reading a rendered decimal string back gives the rendered value; decimal
/// rendering is therefore injective.
pub proof fn lemma_dec_str_value(n: nat)
    ensures
        digits_value(dec_str(n)) == n,
    decreases n,
{
    if n < 10 {
        lemma_digit_roundtrip(n as int);
        assert(dec_str(n).drop_last() =~= Seq::<char>::empty());
        assert(digits_value(dec_str(n).drop_last()) == 0);
    } else {
        lemma_dec_str_value(n / 10);
        lemma_digit_roundtrip((n % 10) as int);
        assert(dec_str(n).drop_last() =~= dec_str(n / 10));
        assert(digits_value(dec_str(n)) == digits_value(dec_str(n).drop_last()) * 10
            + digit_value(dec_str(n).last()));
        assert((n / 10) * 10 + (n % 10) == n);
    }
}

/// Distinct numbers render to distinct decimal strings.
pub proof fn lemma_dec_str_injective(a: nat, b: nat)
    requires
        dec_str(a) == dec_str(b),
    ensures
        a == b,
{
    lemma_dec_str_value(a);
    lemma_dec_str_value(b);
}

/// Two unique ids generated by one node are distinct whenever their wrapping
/// call counters differ, or the counters agree but the packed low 34 bits of
/// the millisecond timestamps differ. Within any run of at most 256
/// consecutive calls the counters are pairwise distinct, so the rendered id
/// strings are pairwise distinct; a collision needs more than 256 calls
/// within one millisecond, wrapping the counter back onto itself.
pub proof fn lemma_unique_ids_distinct(m1: u64, m2: u64, node_num: u64, c1: u8, c2: u8)
    requires
        c1 != c2 || m1 & 0x3_FFFF_FFFF != m2 & 0x3_FFFF_FFFF,
    ensures
        dec_str(pack_unique_id(m1, node_num, c1) as nat) != dec_str(
            pack_unique_id(m2, node_num, c2) as nat,
        ),
{
    let p1 = pack_unique_id(m1, node_num, c1);
    let p2 = pack_unique_id(m2, node_num, c2);
    if c1 != c2 {
        lemma_pack_low_bits(m1, node_num, c1);
        lemma_pack_low_bits(m2, node_num, c2);
        assert(c1 as u64 != c2 as u64) by (bit_vector)
            requires
                c1 != c2,
        ;
    } else {
        lemma_pack_millis_bits(m1, node_num, c1);
        lemma_pack_millis_bits(m2, node_num, c2);
    }
    if dec_str(p1 as nat) == dec_str(p2 as nat) {
        lemma_dec_str_injective(p1 as nat, p2 as nat);
    }
}

} // verus!
