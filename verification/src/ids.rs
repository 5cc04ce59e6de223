//! UUIDs, held as the 128-bit numbers that `uuid::Uuid::as_u128` gives.

use vstd::prelude::*;

verus! {

/// The lower-case hexadecimal digit for `d` (below 16).
pub open spec fn hex_digit(d: nat) -> char {
    if d == 0 {
        '0'
    } else if d == 1 {
        '1'
    } else if d == 2 {
        '2'
    } else if d == 3 {
        '3'
    } else if d == 4 {
        '4'
    } else if d == 5 {
        '5'
    } else if d == 6 {
        '6'
    } else if d == 7 {
        '7'
    } else if d == 8 {
        '8'
    } else if d == 9 {
        '9'
    } else if d == 10 {
        'a'
    } else if d == 11 {
        'b'
    } else if d == 12 {
        'c'
    } else if d == 13 {
        'd'
    } else if d == 14 {
        'e'
    } else {
        'f'
    }
}

/// 16 to the power `n`.
pub open spec fn pow16(n: nat) -> nat
    decreases n,
{
    if n == 0 {
        1
    } else {
        16 * pow16((n - 1) as nat)
    }
}

/// The last `n` hexadecimal digits of `v`, most significant first.
pub open spec fn hex_digits(v: nat, n: nat) -> Seq<char>
    decreases n,
{
    if n == 0 {
        seq![]
    } else {
        hex_digits(v / 16, (n - 1) as nat).push(hex_digit(v % 16))
    }
}

/// The hyphenated lower-case text of a UUID: 8-4-4-4-12 hexadecimal digits.
pub open spec fn uuid_text(id: u128) -> Seq<char> {
    let h = hex_digits(id as nat, 32);
    h.subrange(0, 8) + seq!['-'] + h.subrange(8, 12) + seq!['-'] + h.subrange(12, 16) + seq![
        '-',
    ] + h.subrange(16, 20) + seq!['-'] + h.subrange(20, 32)
}

/// A UUID of version 4 (random) and of the RFC 4122 variant: the version
/// nibble is 4 and the two variant bits are `10`.
pub open spec fn is_v4_uuid(id: u128) -> bool {
    &&& (id >> 76u128) & 0xfu128 == 4
    &&& (id >> 62u128) & 0x3u128 == 2
}

/// `uuid::Uuid::new_v4`: a random UUID. Its source masks the version and
/// variant bits of a random number into place; which number comes back is
/// not stated.
#[verifier::external_body]
pub(crate) fn new_v4_uuid() -> (id: u128)
    ensures
        is_v4_uuid(id),
{
    uuid::Uuid::new_v4().as_u128()
}

/// `Uuid::to_string` (its `Display`): the hyphenated lower-case form of the
/// big-endian bytes of the UUID.
#[verifier::external_body]
pub(crate) fn uuid_to_string(id: u128) -> (s: String)
    ensures
        s@ == uuid_text(id),
{
    uuid::Uuid::from_u128(id).to_string()
}

/// Numbers below 16^n have distinct n-digit hexadecimal texts.
proof fn lemma_hex_digits_injective(a: nat, b: nat, n: nat)
    requires
        a < pow16(n),
        b < pow16(n),
        hex_digits(a, n) == hex_digits(b, n),
    ensures
        a == b,
    decreases n,
{
    if n > 0 {
        let ha = hex_digits(a, n);
        let hb = hex_digits(b, n);
        assert(ha.last() == hex_digit(a % 16));
        assert(hb.last() == hex_digit(b % 16));
        assert(a % 16 == b % 16);
        assert(ha.drop_last() =~= hex_digits(a / 16, (n - 1) as nat));
        assert(hb.drop_last() =~= hex_digits(b / 16, (n - 1) as nat));
        let p = pow16((n - 1) as nat);
        assert(a / 16 < p) by (nonlinear_arith)
            requires
                a < 16 * p,
        ;
        assert(b / 16 < p) by (nonlinear_arith)
            requires
                b < 16 * p,
        ;
        lemma_hex_digits_injective(a / 16, b / 16, (n - 1) as nat);
        assert(a == 16 * (a / 16) + a % 16) by (nonlinear_arith);
        assert(b == 16 * (b / 16) + b % 16) by (nonlinear_arith);
    }
}

/// The n-digit text has n digits.
proof fn lemma_hex_digits_len(v: nat, n: nat)
    ensures
        hex_digits(v, n).len() == n,
    decreases n,
{
    if n > 0 {
        lemma_hex_digits_len(v / 16, (n - 1) as nat);
    }
}

/// The text of a UUID has 36 characters, and distinct UUIDs have distinct texts.
pub proof fn lemma_uuid_text_injective(a: u128, b: u128)
    ensures
        uuid_text(a).len() == 36,
        a != b ==> uuid_text(a) != uuid_text(b),
{
    lemma_hex_digits_len(a as nat, 32);
    lemma_hex_digits_len(b as nat, 32);
    if uuid_text(a) == uuid_text(b) {
        let ha = hex_digits(a as nat, 32);
        let hb = hex_digits(b as nat, 32);
        let ta = uuid_text(a);
        let tb = uuid_text(b);
        assert forall|i: int| 0 <= i < 32 implies ha[i] == hb[i] by {
            if i < 8 {
                assert(ta[i] == ha[i] && tb[i] == hb[i]);
            } else if i < 12 {
                assert(ta[i + 1] == ha[i] && tb[i + 1] == hb[i]);
            } else if i < 16 {
                assert(ta[i + 2] == ha[i] && tb[i + 2] == hb[i]);
            } else if i < 20 {
                assert(ta[i + 3] == ha[i] && tb[i + 3] == hb[i]);
            } else {
                assert(ta[i + 4] == ha[i] && tb[i + 4] == hb[i]);
            }
        }
        assert(ha =~= hb);
        assert(pow16(32) == 0x1_0000_0000_0000_0000_0000_0000_0000_0000) by {
            reveal_with_fuel(pow16, 33);
        }
        lemma_hex_digits_injective(a as nat, b as nat, 32);
    }
}

} // verus!
