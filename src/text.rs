//! Human-readable renderings of amounts, gas and sizes.
use crate::amount::{lemma_amount_bounds, limb_base, Amount};
use alloy_primitives::utils::format_units;
use alloy_primitives::U256;
use bytesize::ByteSize;
use vstd::arithmetic::power::pow;
use vstd::prelude::*;
use vstd::string::StringExecFns;

verus! {

/// The character of a decimal digit.
pub open spec fn digit_char(d: int) -> char {
    if d == 0 {
        '0'
    } else if d == 1 {
        '1'
    } else if d == 2 {
        '2'
    } else if d == 3 {
        '3'
    } else if d == 4 {
        '4'
    } else if d == 5 {
        '5'
    } else if d == 6 {
        '6'
    } else if d == 7 {
        '7'
    } else if d == 8 {
        '8'
    } else {
        '9'
    }
}

/// `n` in decimal, without leading zeros ("0" for zero).
pub open spec fn decimal_of(n: nat) -> Seq<char>
    decreases n,
{
    if n < 10 {
        seq![digit_char(n as int)]
    } else {
        decimal_of(n / 10).push(digit_char((n % 10) as int))
    }
}

/// `s` with zeros put in front until it is `w` characters long.
pub open spec fn pad_zeros(s: Seq<char>, w: nat) -> Seq<char> {
    if s.len() >= w {
        s
    } else {
        Seq::new((w - s.len()) as nat, |i: int| '0') + s
    }
}

/// `v` base units written in a unit of `10^d` of them: the integer part, a
/// point, and the remainder in exactly `d` digits or more.
pub open spec fn units_text(v: nat, d: nat) -> Seq<char> {
    decimal_of(v / (pow(10, d) as nat)) + seq!['.'] + pad_zeros(
        decimal_of(v % (pow(10, d) as nat)),
        d,
    )
}

/// Relies on ruint's `Display` for `Uint`: the value in decimal.
#[verifier::external_body]
pub(crate) fn amount_decimal(a: Amount) -> (r: String)
    ensures
        r@ == decimal_of(a.value() as nat),
{
    U256::from_limbs(a.limbs).to_string()
}

/// An amount in decimal.
pub fn amount_text(a: Amount) -> (r: String)
    ensures
        r@ == decimal_of(a.value() as nat),
{
    amount_decimal(a)
}

/// Relies on alloy's `utils::format_units`: fails only on a unit of more
/// than 77 decimals, and writes the integer part, a point, and the remainder
/// padded with zeros to the unit's number of decimals.
#[verifier::external_body]
pub(crate) fn format_units_text(a: Amount, decimals: u8) -> (r: Option<String>)
    ensures
        r.is_some() <==> decimals <= 77,
        r matches Some(s) ==> s@ == units_text(a.value() as nat, decimals as nat),
{
    format_units(U256::from_limbs(a.limbs), decimals).ok()
}

/// Relies on bytesize's `Display` for `ByteSize`: a size below 1000 bytes
/// is written as its byte count in decimal followed by " B".
#[verifier::external_body]
pub(crate) fn human_size(n: u64) -> (r: String)
    ensures
        n < 1000 ==> r@ == decimal_of(n as nat) + seq![' ', 'B'],
{
    ByteSize::b(n).to_string()
}

/// The lower-case hexadecimal digit of `d`, below 16.
pub open spec fn hex_digit(d: int) -> char {
    seq!['0', '1', '2', '3', '4', '5', '6', '7', '8', '9', 'a', 'b', 'c', 'd', 'e', 'f'][d]
}

/// `bytes` in lower-case hexadecimal, two digits for each byte.
pub open spec fn hex_of(bytes: Seq<u8>) -> Seq<char>
    decreases bytes.len(),
{
    if bytes.len() == 0 {
        seq![]
    } else {
        hex_of(bytes.drop_last()) + seq![
            hex_digit(bytes.last() as int / 16),
            hex_digit(bytes.last() as int % 16),
        ]
    }
}

/// The lower-case hexadecimal digit of `d`, as text.
fn hex_digit_str(d: u8) -> (r: &'static str)
    requires
        d < 16,
    ensures
        r@ == seq![hex_digit(d as int)],
{
    if d == 0 {
        proof {
            reveal_strlit("0");
        }
        "0"
    } else if d == 1 {
        proof {
            reveal_strlit("1");
        }
        "1"
    } else if d == 2 {
        proof {
            reveal_strlit("2");
        }
        "2"
    } else if d == 3 {
        proof {
            reveal_strlit("3");
        }
        "3"
    } else if d == 4 {
        proof {
            reveal_strlit("4");
        }
        "4"
    } else if d == 5 {
        proof {
            reveal_strlit("5");
        }
        "5"
    } else if d == 6 {
        proof {
            reveal_strlit("6");
        }
        "6"
    } else if d == 7 {
        proof {
            reveal_strlit("7");
        }
        "7"
    } else if d == 8 {
        proof {
            reveal_strlit("8");
        }
        "8"
    } else if d == 9 {
        proof {
            reveal_strlit("9");
        }
        "9"
    } else if d == 10 {
        proof {
            reveal_strlit("a");
        }
        "a"
    } else if d == 11 {
        proof {
            reveal_strlit("b");
        }
        "b"
    } else if d == 12 {
        proof {
            reveal_strlit("c");
        }
        "c"
    } else if d == 13 {
        proof {
            reveal_strlit("d");
        }
        "d"
    } else if d == 14 {
        proof {
            reveal_strlit("e");
        }
        "e"
    } else {
        proof {
            reveal_strlit("f");
        }
        "f"
    }
}

/// Writes `bytes` in lower-case hexadecimal.
pub fn to_hex(bytes: &[u8]) -> (r: String)
    ensures
        r@ == hex_of(bytes@),
{
    let mut out = String::new();
    let mut i: usize = 0;
    while i < bytes.len()
        invariant
            i <= bytes@.len(),
            out@ == hex_of(bytes@.subrange(0, i as int)),
        decreases bytes@.len() - i,
    {
        out.append(hex_digit_str(bytes[i] / 16));
        out.append(hex_digit_str(bytes[i] % 16));
        let ghost next = bytes@.subrange(0, i + 1);
        assert(next.drop_last() =~= bytes@.subrange(0, i as int));
        i = i + 1;
    }
    assert(bytes@.subrange(0, i as int) =~= bytes@);
    out
}

/// How a piece of text is to be shown: within its limit, near it, or over it.
#[derive(Clone, Copy, Debug, PartialEq, Eq, Structural)]
pub enum Tone {
    Mint,
    Yellow,
    Pink,
}

/// Text with the tone it is shown in.
#[derive(Clone, Debug, PartialEq, Eq)]
pub struct Styled {
    pub tone: Tone,
    pub text: String,
}

/// The tone of `x` against a soft limit `mid` and a hard limit `max`.
pub open spec fn tone_of(x: int, mid: int, max: int) -> Tone {
    if x <= mid {
        Tone::Mint
    } else if x <= max {
        Tone::Yellow
    } else {
        Tone::Pink
    }
}

/// Bytes in one kibibyte.
pub const KIB: u128 = 1024;

/// A file size, shown against limits of `mid` and `max` kibibytes.
pub fn format_file_size(len: usize, mid: u64, max: u64) -> (r: Styled)
    ensures
        len < 1000 ==> r.text@ == decimal_of(len as nat) + seq![' ', 'B'],
        r.tone == tone_of(len as int, mid * KIB, max * KIB),
{
    let text = human_size(len as u64);
    let n = len as u128;
    let tone = if n <= mid as u128 * KIB {
        Tone::Mint
    } else if n <= max as u128 * KIB {
        Tone::Yellow
    } else {
        Tone::Pink
    };
    Styled { tone, text }
}

/// Gas above which a deployment is expensive.
pub const GAS_SOFT_LIMIT: u64 = 3_000_000;

/// Gas above which a deployment is very expensive.
pub const GAS_HARD_LIMIT: u64 = 7_000_000;

/// `gas`, capped at the largest 64-bit value.
pub open spec fn gas_shown(gas: Amount) -> int {
    if gas.value() <= u64::MAX {
        gas.value()
    } else {
        u64::MAX as int
    }
}

/// An amount of gas in decimal, followed by " gas", toned by its size.
pub fn format_gas(gas: Amount) -> (r: Styled)
    ensures
        r.text@ == decimal_of(gas_shown(gas) as nat) + seq![' ', 'g', 'a', 's'],
        r.tone == tone_of(gas_shown(gas), GAS_SOFT_LIMIT as int, GAS_HARD_LIMIT as int),
{
    proof {
        lemma_amount_bounds(gas);
    }
    let g: u64 = if gas.limbs[1] == 0 && gas.limbs[2] == 0 && gas.limbs[3] == 0 {
        gas.limbs[0]
    } else {
        proof {
            assert(gas.value() >= limb_base()) by (nonlinear_arith)
                requires
                    gas.value() == gas.limbs@[0] as int + limb_base() * (gas.limbs@[1] as int
                        + limb_base() * (gas.limbs@[2] as int + limb_base()
                        * gas.limbs@[3] as int)),
                    gas.limbs@[1] != 0 || gas.limbs@[2] != 0 || gas.limbs@[3] != 0,
                    limb_base() > 0,
            ;
        }
        u64::MAX
    };
    let mut text = amount_decimal(Amount::from_u128(g as u128));
    text.append(" gas");
    proof {
        reveal_strlit(" gas");
    }
    let tone = if g <= GAS_SOFT_LIMIT {
        Tone::Mint
    } else if g <= GAS_HARD_LIMIT {
        Tone::Yellow
    } else {
        Tone::Pink
    };
    Styled { tone, text }
}

} // verus!
