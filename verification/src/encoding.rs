//! Textual encodings used when deriving wire protocol names: lowercase
//! hexadecimal for the genesis hash and decimal for version numbers, together
//! with the injectivity lemmas that make derived names collision-free.

use vstd::prelude::*;
use vstd::string::StringExecFns;

verus! {

/// The character standing for one hexadecimal digit value (`0..16`),
/// lower case.  Values below ten double as decimal digit characters.
pub open spec fn hex_digit(n: u8) -> char {
    if n == 0 {
        '0'
    } else if n == 1 {
        '1'
    } else if n == 2 {
        '2'
    } else if n == 3 {
        '3'
    } else if n == 4 {
        '4'
    } else if n == 5 {
        '5'
    } else if n == 6 {
        '6'
    } else if n == 7 {
        '7'
    } else if n == 8 {
        '8'
    } else if n == 9 {
        '9'
    } else if n == 10 {
        'a'
    } else if n == 11 {
        'b'
    } else if n == 12 {
        'c'
    } else if n == 13 {
        'd'
    } else if n == 14 {
        'e'
    } else {
        'f'
    }
}

/// Distinct digit values give distinct digit characters.
pub proof fn lemma_hex_digit_injective(a: u8, b: u8)
    requires
        a < 16,
        b < 16,
        a != b,
    ensures
        hex_digit(a) != hex_digit(b),
{
}

/// Lowercase hexadecimal encoding of a byte sequence: two digits per byte,
/// high nibble first.
pub open spec fn spec_hex_encode(bytes: Seq<u8>) -> Seq<char>
    decreases bytes.len(),
{
    if bytes.len() == 0 {
        Seq::empty()
    } else {
        seq![hex_digit(bytes.first() / 16), hex_digit(bytes.first() % 16)] + spec_hex_encode(
            bytes.drop_first(),
        )
    }
}

/// Relies on `hex::encode`: lowercase hexadecimal, two digits per byte,
/// high nibble first.
#[verifier::external_body]
pub fn hex_encode(bytes: &[u8]) -> (r: String)
    ensures
        r@ == spec_hex_encode(bytes@),
{
    hex::encode(bytes)
}

pub proof fn lemma_hex_encode_len(bytes: Seq<u8>)
    ensures
        spec_hex_encode(bytes).len() == 2 * bytes.len(),
    decreases bytes.len(),
{
    if bytes.len() > 0 {
        lemma_hex_encode_len(bytes.drop_first());
    }
}

/// Equal-length byte sequences with different contents have different
/// hexadecimal encodings.
pub proof fn lemma_hex_encode_injective(a: Seq<u8>, b: Seq<u8>)
    requires
        a.len() == b.len(),
        a != b,
    ensures
        spec_hex_encode(a) != spec_hex_encode(b),
    decreases a.len(),
{
    if a.len() == 0 {
        assert(a =~= b);
    } else if a.first() != b.first() {
        let x = a.first();
        let y = b.first();
        assert(x == 16 * (x / 16) + x % 16) by (bit_vector);
        assert(y == 16 * (y / 16) + y % 16) by (bit_vector);
        assert(x / 16 < 16 && x % 16 < 16) by (bit_vector);
        assert(y / 16 < 16 && y % 16 < 16) by (bit_vector);
        if x / 16 != y / 16 {
            lemma_hex_digit_injective(x / 16, y / 16);
            assert(spec_hex_encode(a)[0] != spec_hex_encode(b)[0]);
        } else {
            assert(x % 16 != y % 16);
            lemma_hex_digit_injective(x % 16, y % 16);
            assert(spec_hex_encode(a)[1] != spec_hex_encode(b)[1]);
        }
    } else {
        if a.drop_first() == b.drop_first() {
            assert forall|i: int| 0 <= i < a.len() implies a[i] == b[i] by {
                if i > 0 {
                    assert(a.drop_first()[i - 1] == b.drop_first()[i - 1]);
                }
            }
            assert(a =~= b);
        }
        lemma_hex_encode_injective(a.drop_first(), b.drop_first());
        let pre = seq![hex_digit(a.first() / 16), hex_digit(a.first() % 16)];
        lemma_append_left_cancel(pre, spec_hex_encode(a.drop_first()), spec_hex_encode(b.drop_first()));
    }
}

/// Canonical decimal rendering of a number, most significant digit first,
/// without leading zeroes (a single zero for the number zero).
pub open spec fn spec_decimal(n: nat) -> Seq<char>
    decreases n,
{
    if n < 10 {
        seq![hex_digit(n as u8)]
    } else {
        spec_decimal(n / 10) + seq![hex_digit((n % 10) as u8)]
    }
}

pub proof fn lemma_decimal_len(n: nat)
    ensures
        spec_decimal(n).len() >= 1,
    decreases n,
{
    if n >= 10 {
        lemma_decimal_len(n / 10);
    }
}

/// Distinct numbers have distinct decimal renderings.
pub proof fn lemma_decimal_injective(m: nat, n: nat)
    requires
        m != n,
    ensures
        spec_decimal(m) != spec_decimal(n),
    decreases m + n,
{
    if m < 10 && n < 10 {
        lemma_hex_digit_injective(m as u8, n as u8);
        assert(spec_decimal(m)[0] != spec_decimal(n)[0]);
    } else if m < 10 {
        lemma_decimal_len(n / 10);
        assert(spec_decimal(m).len() == 1);
        assert(spec_decimal(n).len() >= 2);
    } else if n < 10 {
        lemma_decimal_len(m / 10);
        assert(spec_decimal(n).len() == 1);
        assert(spec_decimal(m).len() >= 2);
    } else {
        if spec_decimal(m) == spec_decimal(n) {
            let dm = spec_decimal(m / 10);
            let dn = spec_decimal(n / 10);
            assert(spec_decimal(m).last() == hex_digit((m % 10) as u8));
            assert(spec_decimal(n).last() == hex_digit((n % 10) as u8));
            if m % 10 != n % 10 {
                lemma_hex_digit_injective((m % 10) as u8, (n % 10) as u8);
            }
            assert(m % 10 == n % 10);
            vstd::arithmetic::div_mod::lemma_fundamental_div_mod(m as int, 10);
            vstd::arithmetic::div_mod::lemma_fundamental_div_mod(n as int, 10);
            assert(m / 10 != n / 10);
            lemma_decimal_injective(m / 10, n / 10);
            assert(spec_decimal(m).drop_last() =~= dm);
            assert(spec_decimal(n).drop_last() =~= dn);
            assert(false);
        }
    }
}

/// The decimal digit characters as string slices.
fn digit_str(d: u8) -> (r: &'static str)
    requires
        d < 10,
    ensures
        r@ == seq![hex_digit(d)],
{
    proof {
        reveal_strlit("0");
        reveal_strlit("1");
        reveal_strlit("2");
        reveal_strlit("3");
        reveal_strlit("4");
        reveal_strlit("5");
        reveal_strlit("6");
        reveal_strlit("7");
        reveal_strlit("8");
        reveal_strlit("9");
    }
    let r: &'static str = if d == 0 {
        "0"
    } else if d == 1 {
        "1"
    } else if d == 2 {
        "2"
    } else if d == 3 {
        "3"
    } else if d == 4 {
        "4"
    } else if d == 5 {
        "5"
    } else if d == 6 {
        "6"
    } else if d == 7 {
        "7"
    } else if d == 8 {
        "8"
    } else {
        "9"
    };
    proof {
        assert(r@ =~= seq![hex_digit(d)]);
    }
    r
}

/// Render a number in decimal, most significant digit first.
pub fn u32_decimal(n: u32) -> (r: String)
    ensures
        r@ == spec_decimal(n as nat),
    decreases n,
{
    if n < 10 {
        digit_str(n as u8).to_owned()
    } else {
        let mut s = u32_decimal(n / 10);
        s.append(digit_str((n % 10) as u8));
        proof {
            assert(n as nat / 10 == (n / 10) as nat);
            assert(n as nat % 10 == (n % 10) as nat);
        }
        s
    }
}

/// Appending the same sequence on the left keeps distinct sequences distinct,
/// and conversely.
pub proof fn lemma_append_left_cancel(p: Seq<char>, a: Seq<char>, b: Seq<char>)
    ensures
        (p + a == p + b) <==> (a == b),
{
    if p + a == p + b {
        assert((p + a).len() == (p + b).len());
        assert(a.len() == b.len());
        assert forall|i: int| 0 <= i < a.len() implies a[i] == b[i] by {
            assert((p + a)[p.len() + i] == a[i]);
            assert((p + b)[p.len() + i] == b[i]);
        }
        assert(a =~= b);
    }
}

/// Two concatenations sharing a prefix differ when the segments that follow
/// the prefix have equal length but different contents, whatever comes after
/// them.
pub proof fn lemma_mid_segment_neq(p: Seq<char>, a: Seq<char>, x: Seq<char>, b: Seq<char>, y: Seq<char>)
    requires
        a.len() == b.len(),
        a != b,
    ensures
        p + a + x != p + b + y,
{
    if forall|i: int| 0 <= i < a.len() ==> a[i] == b[i] {
        assert(a =~= b);
    }
    let i = choose|i: int| 0 <= i < a.len() && a[i] != b[i];
    assert((p + a + x)[p.len() + i] == a[i]);
    assert((p + b + y)[p.len() + i] == b[i]);
}

/// Two concatenations sharing a prefix differ when the segments that follow
/// the prefix start with different characters, whatever comes after them.
pub proof fn lemma_mid_segment_first_char(
    p: Seq<char>,
    a: Seq<char>,
    x: Seq<char>,
    b: Seq<char>,
    y: Seq<char>,
)
    requires
        a.len() > 0,
        b.len() > 0,
        a[0] != b[0],
    ensures
        p + a + x != p + b + y,
{
    assert((p + a + x)[p.len() as int] == a[0]);
    assert((p + b + y)[p.len() as int] == b[0]);
}

} // verus!
