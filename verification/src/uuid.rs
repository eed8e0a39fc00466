//! A 128-bit identifier stored as four signed 32-bit big-endian words,
//! most-significant word first, parsed from the canonical 8-4-4-4-12
//! hyphenated hexadecimal form.

use vstd::prelude::*;
use vstd::utf8::is_ascii_chars;
use vstd::utf8::is_ascii_chars_encode_utf8;

verus! {

/// Whether `c` is a hexadecimal digit, of either case.
pub open spec fn is_hex_digit(c: char) -> bool {
    ('0' <= c && c <= '9') || ('A' <= c && c <= 'F') || ('a' <= c && c <= 'f')
}

/// The value of the hexadecimal digit `c`.
pub open spec fn hex_digit_value(c: char) -> nat {
    if '0' <= c && c <= '9' {
        (c as int - 0x30) as nat
    } else if 'A' <= c && c <= 'F' {
        (c as int - 0x41 + 10) as nat
    } else {
        (c as int - 0x61 + 10) as nat
    }
}

/// Whether index `i` holds one of the four hyphens of the canonical
/// 8-4-4-4-12 form.
pub open spec fn is_hyphen_pos(i: int) -> bool {
    i == 8 || i == 13 || i == 18 || i == 23
}

/// Whether `s` is the canonical hyphenated form: 36 characters, a hyphen
/// exactly at indices 8, 13, 18 and 23, and a hexadecimal digit everywhere
/// else.
pub open spec fn is_canonical_uuid(s: Seq<char>) -> bool {
    &&& s.len() == 36
    &&& forall|i: int|
        #![trigger s[i]]
        0 <= i < 36 ==> (if is_hyphen_pos(i) {
            s[i] == '-'
        } else {
            is_hex_digit(s[i])
        })
}

/// The hexadecimal digits among the first `n` characters of `s`, in order,
/// the hyphen positions skipped.
pub open spec fn digits_prefix(s: Seq<char>, n: int) -> Seq<char>
    decreases n,
{
    if n <= 0 {
        Seq::empty()
    } else if is_hyphen_pos(n - 1) {
        digits_prefix(s, n - 1)
    } else {
        digits_prefix(s, n - 1).push(s[n - 1])
    }
}

/// The 32 hexadecimal digits of a canonical string, in order.
pub open spec fn uuid_digits(s: Seq<char>) -> Seq<char> {
    digits_prefix(s, 36)
}

/// How many hyphen positions lie below index `i` of a canonical string.
pub open spec fn hyphens_before(i: int) -> int {
    (if i > 8 {
        1int
    } else {
        0int
    }) + (if i > 13 {
        1int
    } else {
        0int
    }) + (if i > 18 {
        1int
    } else {
        0int
    }) + (if i > 23 {
        1int
    } else {
        0int
    })
}

/// The value of a big-endian string of hexadecimal digits.
pub open spec fn hex_value(ds: Seq<char>) -> nat
    decreases ds.len(),
{
    if ds.len() == 0 {
        0
    } else {
        hex_value(ds.drop_last()) * 16 + hex_digit_value(ds.last())
    }
}

/// Sixteen to the power `n`.
pub open spec fn pow16(n: nat) -> nat
    decreases n,
{
    if n == 0 {
        1
    } else {
        16 * pow16((n - 1) as nat)
    }
}

/// Concatenation splits a hexadecimal value: the left digits are scaled by
/// sixteen to the number of right digits.
pub proof fn lemma_hex_value_concat(a: Seq<char>, b: Seq<char>)
    ensures
        hex_value(a + b) == hex_value(a) * pow16(b.len()) + hex_value(b),
    decreases b.len(),
{
    if b.len() == 0 {
        assert(a + b =~= a);
        assert(pow16(0) == 1);
        assert(hex_value(b) == 0);
        assert(hex_value(a) * pow16(b.len()) == hex_value(a)) by (nonlinear_arith)
            requires
                pow16(b.len()) == 1,
        ;
        assert(hex_value(a + b) == hex_value(a) * pow16(b.len()) + hex_value(b));
    } else {
        let n = b.len();
        let b1 = b.drop_last();
        lemma_hex_value_concat(a, b1);
        assert((a + b).drop_last() =~= a + b1);
        assert((a + b).last() == b.last());
        assert((a + b).len() == a.len() + n);
        assert(hex_value(a + b) == hex_value(a + b1) * 16 + hex_digit_value(b.last()));
        assert(hex_value(b) == hex_value(b1) * 16 + hex_digit_value(b.last()));
        assert(pow16(n) == 16 * pow16((n - 1) as nat));
        assert(hex_value(a) * pow16((n - 1) as nat) * 16 == hex_value(a) * pow16(n))
            by (nonlinear_arith)
            requires
                pow16(n) == 16 * pow16((n - 1) as nat),
        ;
        assert(hex_value(a + b1) * 16 == hex_value(a) * pow16((n - 1) as nat) * 16 + hex_value(b1)
            * 16);
        assert(hex_value(a + b) == hex_value(a) * pow16(b.len()) + hex_value(b));
    }
}

/// The 128-bit value the canonical string `s` denotes: its 32 hexadecimal
/// digits read big-endian.
pub open spec fn uuid_value(s: Seq<char>) -> nat {
    hex_value(uuid_digits(s))
}

/// The unsigned 32-bit value that the signed word `w` stores, two's
/// complement.
pub open spec fn word_val(w: i32) -> nat {
    if w >= 0 {
        w as nat
    } else {
        (w + 0x100000000) as nat
    }
}

/// A 128-bit identifier as four signed 32-bit words, most-significant first.
#[derive(Debug, Clone, Copy, PartialEq, Eq)]
pub struct Uuid(pub [i32; 4]);

impl Uuid {
    /// The 128-bit value: the words concatenated most-significant first.
    pub open spec fn spec_value(self) -> nat {
        word_val(self.0@[0]) * 0x1000000000000000000000000 + word_val(self.0@[1])
            * 0x10000000000000000 + word_val(self.0@[2]) * 0x100000000 + word_val(self.0@[3])
    }

    /// Parses the canonical hyphenated form, accepting both digit cases.
    /// Yields nothing exactly when `uuid` is not in that form.
    pub fn try_parse(uuid: &str) -> (r: Option<Uuid>)
        ensures
            match r {
                Some(u) => is_canonical_uuid(uuid@) && u.spec_value() == uuid_value(uuid@),
                None => !is_canonical_uuid(uuid@),
            },
    {
        if !uuid.is_ascii() {
            proof {
                lemma_canonical_is_ascii(uuid@);
            }
            return None;
        }
        let bytes = uuid.as_bytes();
        proof {
            is_ascii_chars_encode_utf8(uuid@);
        }
        if bytes.len() != 36 {
            return None;
        }
        let mut digits: Vec<char> = Vec::new();
        let mut i: usize = 0;
        while i < 36
            invariant
                i <= 36,
                uuid@.len() == 36,
                bytes@.len() == 36,
                is_ascii_chars(uuid@),
                forall|j: int|
                    #![trigger bytes@[j]]
                    0 <= j < 36 ==> uuid@[j] as u8 == bytes@[j],
                digits@ == digits_prefix(uuid@, i as int),
                digits@.len() == i - hyphens_before(i as int),
                forall|j: int| 0 <= j < digits@.len() ==> is_hex_digit(#[trigger] digits@[j]),
                forall|j: int|
                    #![trigger uuid@[j]]
                    0 <= j < i ==> (if is_hyphen_pos(j) {
                        uuid@[j] == '-'
                    } else {
                        is_hex_digit(uuid@[j])
                    }),
            decreases 36 - i,
        {
            let b = bytes[i];
            proof {
                assert(uuid@[i as int] as u8 == b);
                assert('\0' <= uuid@[i as int] <= '\u{7f}');
            }
            if i == 8 || i == 13 || i == 18 || i == 23 {
                if b != 0x2d {
                    return None;
                }
                assert(uuid@[i as int] == '-');
            } else {
                if !((0x30 <= b && b <= 0x39) || (0x41 <= b && b <= 0x46) || (0x61 <= b && b
                    <= 0x66)) {
                    return None;
                }
                assert(is_hex_digit(uuid@[i as int]));
                digits.push(b as char);
                assert(digits@.last() == uuid@[i as int]);
            }
            i = i + 1;
        }
        let w0 = hex_word(&digits, 0);
        let w1 = hex_word(&digits, 8);
        let w2 = hex_word(&digits, 16);
        let w3 = hex_word(&digits, 24);
        let u = Uuid([u32_to_word(w0), u32_to_word(w1), u32_to_word(w2), u32_to_word(w3)]);
        proof {
            let d = digits@;
            assert(d =~= uuid_digits(uuid@));
            assert(d.len() == 32);
            lemma_hex_value_concat(d.subrange(0, 24), d.subrange(24, 32));
            lemma_hex_value_concat(d.subrange(0, 16), d.subrange(16, 24));
            lemma_hex_value_concat(d.subrange(0, 8), d.subrange(8, 16));
            assert(d.subrange(0, 24) + d.subrange(24, 32) =~= d);
            assert(d.subrange(0, 16) + d.subrange(16, 24) =~= d.subrange(0, 24));
            assert(d.subrange(0, 8) + d.subrange(8, 16) =~= d.subrange(0, 16));
            assert(pow16(8) == 0x100000000) by {
                reveal_with_fuel(pow16, 9);
            }
            let h0 = hex_value(d.subrange(0, 8));
            let h1 = hex_value(d.subrange(8, 16));
            let h2 = hex_value(d.subrange(16, 24));
            let h3 = hex_value(d.subrange(24, 32));
            assert(word_val(u.0@[0]) == h0);
            assert(word_val(u.0@[1]) == h1);
            assert(word_val(u.0@[2]) == h2);
            assert(word_val(u.0@[3]) == h3);
            assert(hex_value(d.subrange(0, 16)) == h0 * 0x100000000 + h1);
            assert(hex_value(d.subrange(0, 24)) == (h0 * 0x100000000 + h1) * 0x100000000 + h2);
            assert(hex_value(d) == ((h0 * 0x100000000 + h1) * 0x100000000 + h2) * 0x100000000
                + h3);
            assert(u.spec_value() == h0 * 0x1000000000000000000000000 + h1 * 0x10000000000000000
                + h2 * 0x100000000 + h3);
            assert(((h0 * 0x100000000 + h1) * 0x100000000 + h2) * 0x100000000 + h3 == h0
                * 0x1000000000000000000000000 + h1 * 0x10000000000000000 + h2 * 0x100000000 + h3)
                by (nonlinear_arith);
            assert(uuid_value(uuid@) == hex_value(d));
            assert(u.spec_value() == uuid_value(uuid@));
        }
        Some(u)
    }

    /// Parses the canonical hyphenated form of an identifier.
    pub fn new(uuid: &str) -> (r: Self)
        requires
            is_canonical_uuid(uuid@),
        ensures
            r.spec_value() == uuid_value(uuid@),
    {
        Self::try_parse(uuid).unwrap()
    }

    /// The single 128-bit value of the four words, most-significant first.
    pub fn to_u128(&self) -> (r: u128)
        ensures
            r == self.spec_value(),
    {
        let w0 = word_to_u32(self.0[0]) as u128;
        let w1 = word_to_u32(self.0[1]) as u128;
        let w2 = word_to_u32(self.0[2]) as u128;
        let w3 = word_to_u32(self.0[3]) as u128;
        w0 * 0x1000000000000000000000000 + w1 * 0x10000000000000000 + w2 * 0x100000000 + w3
    }
}

/// A canonical string holds only hyphens and hexadecimal digits, so it is
/// all-ASCII.
proof fn lemma_canonical_is_ascii(s: Seq<char>)
    ensures
        is_canonical_uuid(s) ==> is_ascii_chars(s),
{
    if is_canonical_uuid(s) {
        assert forall|i: int| 0 <= i < s.len() implies '\0' <= #[trigger] s[i] <= '\u{7f}' by {
            assert(if is_hyphen_pos(i) {
                s[i] == '-'
            } else {
                is_hex_digit(s[i])
            });
        }
    }
}

/// The unsigned value of a signed word, by its two's-complement reading.
fn word_to_u32(w: i32) -> (r: u32)
    ensures
        r == word_val(w),
{
    if w >= 0 {
        w as u32
    } else {
        ((w as i64) + 0x100000000) as u32
    }
}

/// The signed word storing the unsigned value `x`, by its two's-complement
/// reading.
fn u32_to_word(x: u32) -> (r: i32)
    ensures
        word_val(r) == x,
{
    if x < 0x80000000 {
        x as i32
    } else {
        ((x as i64) - 0x100000000) as i32
    }
}

/// The value of the hexadecimal digit `c`.
fn hex_val(c: char) -> (r: u8)
    requires
        is_hex_digit(c),
    ensures
        r == hex_digit_value(c),
        r <= 15,
{
    let b = c as u8;
    if b <= 0x39 {
        b - 0x30
    } else if b <= 0x46 {
        b - 0x41 + 10
    } else {
        b - 0x61 + 10
    }
}

/// The value of the eight hexadecimal digits at `digits[start..start + 8]`.
fn hex_word(digits: &Vec<char>, start: usize) -> (r: u32)
    requires
        start + 8 <= digits@.len(),
        forall|j: int| 0 <= j < digits@.len() ==> is_hex_digit(#[trigger] digits@[j]),
    ensures
        r == hex_value(digits@.subrange(start as int, start as int + 8)),
{
    proof {
        vstd::std_specs::vec::axiom_spec_len(digits);
    }
    let d0 = hex_val(digits[start]) as u32;
    let d1 = hex_val(digits[start + 1]) as u32;
    let d2 = hex_val(digits[start + 2]) as u32;
    let d3 = hex_val(digits[start + 3]) as u32;
    let d4 = hex_val(digits[start + 4]) as u32;
    let d5 = hex_val(digits[start + 5]) as u32;
    let d6 = hex_val(digits[start + 6]) as u32;
    let d7 = hex_val(digits[start + 7]) as u32;
    proof {
        let st = start as int;
        let d = digits@;
        assert(d.subrange(st, st + 8).drop_last() =~= d.subrange(st, st + 7));
        assert(d.subrange(st, st + 7).drop_last() =~= d.subrange(st, st + 6));
        assert(d.subrange(st, st + 6).drop_last() =~= d.subrange(st, st + 5));
        assert(d.subrange(st, st + 5).drop_last() =~= d.subrange(st, st + 4));
        assert(d.subrange(st, st + 4).drop_last() =~= d.subrange(st, st + 3));
        assert(d.subrange(st, st + 3).drop_last() =~= d.subrange(st, st + 2));
        assert(d.subrange(st, st + 2).drop_last() =~= d.subrange(st, st + 1));
        assert(d.subrange(st, st + 1).drop_last() =~= d.subrange(st, st));
        assert(d.subrange(st, st).len() == 0);
    }
    let v1 = d0;
    let v2 = v1 * 16 + d1;
    let v3 = v2 * 16 + d2;
    let v4 = v3 * 16 + d3;
    let v5 = v4 * 16 + d4;
    let v6 = v5 * 16 + d5;
    let v7 = v6 * 16 + d6;
    let v8 = v7 * 16 + d7;
    proof {
        let st = start as int;
        let d = digits@;
        assert(hex_value(d.subrange(st, st)) == 0);
        assert(v1 == hex_value(d.subrange(st, st + 1)));
        assert(v2 == hex_value(d.subrange(st, st + 2)));
        assert(v3 == hex_value(d.subrange(st, st + 3)));
        assert(v4 == hex_value(d.subrange(st, st + 4)));
        assert(v5 == hex_value(d.subrange(st, st + 5)));
        assert(v6 == hex_value(d.subrange(st, st + 6)));
        assert(v7 == hex_value(d.subrange(st, st + 7)));
        assert(v8 == hex_value(d.subrange(st, st + 8)));
    }
    v8
}

} // verus!
