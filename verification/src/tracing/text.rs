//! Hexadecimal and decimal renderings, and why both can be read back.

use vstd::prelude::*;
use vstd::string::StringExecFns;

verus! {

/// The lowercase digit for a value below 16.
pub open spec fn digit(n: int) -> char {
    if n == 0 {
        '0'
    } else if n == 1 {
        '1'
    } else if n == 2 {
        '2'
    } else if n == 3 {
        '3'
    } else if n == 4 {
        '4'
    } else if n == 5 {
        '5'
    } else if n == 6 {
        '6'
    } else if n == 7 {
        '7'
    } else if n == 8 {
        '8'
    } else if n == 9 {
        '9'
    } else if n == 10 {
        'a'
    } else if n == 11 {
        'b'
    } else if n == 12 {
        'c'
    } else if n == 13 {
        'd'
    } else if n == 14 {
        'e'
    } else {
        'f'
    }
}

/// Lowercase hexadecimal text of a byte string: two digits for each byte,
/// the high half first, and no prefix.
pub open spec fn hex_lower(bytes: Seq<u8>) -> Seq<char> {
    Seq::new(
        2 * bytes.len(),
        |i: int|
            if i % 2 == 0 {
                digit(bytes[i / 2] as int / 16)
            } else {
                digit(bytes[i / 2] as int % 16)
            },
    )
}

/// Decimal text of a natural number, without leading zeros.
pub open spec fn decimal(n: nat) -> Seq<char>
    decreases n,
{
    if n < 10 {
        seq![digit(n as int)]
    } else {
        decimal(n / 10).push(digit((n % 10) as int))
    }
}

/// Distinct values below 16 have distinct digits.
pub proof fn lemma_digit_injective(a: int, b: int)
    requires
        0 <= a < 16,
        0 <= b < 16,
        digit(a) == digit(b),
    ensures
        a == b,
{
}

/// Hexadecimal text determines the bytes it was made from.
pub proof fn lemma_hex_lower_injective(a: Seq<u8>, b: Seq<u8>)
    requires
        hex_lower(a) == hex_lower(b),
    ensures
        a == b,
{
    assert(hex_lower(a).len() == 2 * a.len());
    assert(hex_lower(b).len() == 2 * b.len());
    assert(a.len() == b.len());
    assert forall|i: int| 0 <= i < a.len() implies a[i] == b[i] by {
        let x = a[i] as int;
        let y = b[i] as int;
        assert(hex_lower(a)[2 * i] == digit(x / 16));
        assert(hex_lower(b)[2 * i] == digit(y / 16));
        assert(hex_lower(a)[2 * i + 1] == digit(x % 16));
        assert(hex_lower(b)[2 * i + 1] == digit(y % 16));
        lemma_digit_injective(x / 16, y / 16);
        lemma_digit_injective(x % 16, y % 16);
    }
    assert(a =~= b);
}

/// Decimal text is never empty.
pub proof fn lemma_decimal_len(n: nat)
    ensures
        decimal(n).len() >= 1,
        n >= 10 ==> decimal(n).len() >= 2,
    decreases n,
{
    if n >= 10 {
        lemma_decimal_len(n / 10);
    }
}

/// Decimal text determines the number it was made from.
pub proof fn lemma_decimal_injective(a: nat, b: nat)
    requires
        decimal(a) == decimal(b),
    ensures
        a == b,
    decreases a,
{
    lemma_decimal_len(a);
    lemma_decimal_len(b);
    if a < 10 {
        assert(decimal(a).len() == 1);
        assert(b < 10);
        assert(decimal(a)[0] == digit(a as int));
        assert(decimal(b)[0] == digit(b as int));
        lemma_digit_injective(a as int, b as int);
    } else {
        assert(b >= 10);
        let da = decimal(a / 10);
        let db = decimal(b / 10);
        assert(decimal(a).last() == digit((a % 10) as int));
        assert(decimal(b).last() == digit((b % 10) as int));
        lemma_digit_injective((a % 10) as int, (b % 10) as int);
        assert(decimal(a).drop_last() =~= da);
        assert(decimal(b).drop_last() =~= db);
        lemma_decimal_injective(a / 10, b / 10);
    }
}

/// Encodes `data` as lowercase hexadecimal text.
///
/// Trusted: the call is `hex::encode` of the `const-hex` crate, as
/// `alloy_primitives` re-exports it. The contract restates its
/// documentation: lowercase digits, two for each byte, nothing else. The
/// precondition keeps the length of the text within what a `String` can
/// hold.
#[verifier::external_body]
pub(crate) fn hex_encode(data: &[u8]) -> (text: String)
    requires
        2 * data@.len() <= isize::MAX,
    ensures
        text@ == hex_lower(data@),
{
    alloy_primitives::hex::encode(data)
}

/// The one-character string of a decimal digit.
fn digit_str(d: usize) -> (s: &'static str)
    requires
        d < 10,
    ensures
        s@ == seq![digit(d as int)],
{
    proof {
        reveal_strlit("0");
        reveal_strlit("1");
        reveal_strlit("2");
        reveal_strlit("3");
        reveal_strlit("4");
        reveal_strlit("5");
        reveal_strlit("6");
        reveal_strlit("7");
        reveal_strlit("8");
        reveal_strlit("9");
    }
    let s = if d == 0 {
        "0"
    } else if d == 1 {
        "1"
    } else if d == 2 {
        "2"
    } else if d == 3 {
        "3"
    } else if d == 4 {
        "4"
    } else if d == 5 {
        "5"
    } else if d == 6 {
        "6"
    } else if d == 7 {
        "7"
    } else if d == 8 {
        "8"
    } else {
        "9"
    };
    assert(s@ =~= seq![digit(d as int)]);
    s
}

/// Renders `n` in decimal.
pub fn decimal_string(n: usize) -> (text: String)
    ensures
        text@ == decimal(n as nat),
    decreases n,
{
    if n < 10 {
        digit_str(n).to_owned()
    } else {
        let mut text = decimal_string(n / 10);
        text.append(digit_str(n % 10));
        text
    }
}

} // verus!
