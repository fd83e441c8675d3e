//! Text that crosses the SDK boundary: fixed-length name fields coming in,
//! decimal numbers going out into messages.

use vstd::prelude::*;
use vstd::string::StringExecFns;
use vstd::utf8::{decode_utf8, valid_utf8};

verus! {

/// The bytes of `bytes` that are not zero, in the order in which they stand.
pub open spec fn spec_strip_nul(bytes: Seq<u8>) -> Seq<u8> {
    bytes.filter(|b: u8| b != 0)
}

/// Drops every zero byte of a fixed-length field, padding and embedded
/// zeros alike, and keeps the rest in order.
pub fn strip_nul(bytes: &[u8]) -> (out: Vec<u8>)
    ensures
        out@ == spec_strip_nul(bytes@),
{
    let mut out: Vec<u8> = Vec::new();
    let mut i: usize = 0;
    while i < bytes.len()
        invariant
            i <= bytes.len(),
            out@ == spec_strip_nul(bytes@.take(i as int)),
        decreases bytes.len() - i,
    {
        let b: u8 = bytes[i];
        proof {
            reveal(Seq::filter);
            assert(bytes@.take(i + 1).drop_last() == bytes@.take(i as int));
        }
        if b != 0 {
            out.push(b);
        }
        i += 1;
    }
    proof {
        reveal(Seq::filter);
        assert(bytes@.take(i as int) == bytes@);
    }
    out
}

proof fn lemma_strips_every_zero(bytes: Seq<u8>)
    ensures
        !spec_strip_nul(bytes).contains(0u8),
    decreases bytes.len(),
{
    reveal(Seq::filter);
    let kept = spec_strip_nul(bytes);
    if bytes.len() > 0 {
        let kept_front = spec_strip_nul(bytes.drop_last());
        lemma_strips_every_zero(bytes.drop_last());
        if kept.contains(0u8) {
            let i = choose|i: int| 0 <= i < kept.len() && kept[i] == 0u8;
            if i < kept_front.len() {
                assert(kept_front[i] == 0u8);
            }
        }
    }
}

proof fn lemma_keeps_what_has_no_zero(bytes: Seq<u8>)
    requires
        !bytes.contains(0u8),
    ensures
        spec_strip_nul(bytes) == bytes,
    decreases bytes.len(),
{
    reveal(Seq::filter);
    if bytes.len() > 0 {
        let front = bytes.drop_last();
        if front.contains(0u8) {
            let i = choose|i: int| 0 <= i < front.len() && front[i] == 0u8;
            assert(bytes[i] == 0u8);
        }
        lemma_keeps_what_has_no_zero(front);
        assert(bytes.last() == bytes[bytes.len() - 1]);
        assert(front.push(bytes.last()) == bytes);
    }
}

/// Stripping leaves no zero byte behind, and leaves alone what holds none;
/// so stripping twice is stripping once.
pub proof fn lemma_strip_nul_is_thorough(bytes: Seq<u8>)
    ensures
        !spec_strip_nul(bytes).contains(0u8),
        !bytes.contains(0u8) ==> spec_strip_nul(bytes) == bytes,
        spec_strip_nul(spec_strip_nul(bytes)) == spec_strip_nul(bytes),
{
    lemma_strips_every_zero(bytes);
    if !bytes.contains(0u8) {
        lemma_keeps_what_has_no_zero(bytes);
    }
    lemma_keeps_what_has_no_zero(spec_strip_nul(bytes));
}

/// What a name field reads as when its bytes are not text.
pub open spec fn invalid_name() -> Seq<char> {
    "Invalid name"@
}

/// The text of a fixed-length name field: its non-zero bytes read as UTF-8,
/// or the words of [`invalid_name`] where they are not well-formed UTF-8.
pub open spec fn spec_decode_name(bytes: Seq<u8>) -> Seq<char> {
    let kept = spec_strip_nul(bytes);
    if valid_utf8(kept) {
        decode_utf8(kept)
    } else {
        invalid_name()
    }
}

/// `String::from_utf8` of the standard library: it accepts exactly the
/// well-formed UTF-8 byte strings, and the string it then returns holds the
/// characters that the bytes encode. Nothing here is proved; the contract
/// restates the documented behaviour over the UTF-8 model of `vstd`.
#[verifier::external_body]
fn string_from_utf8(bytes: Vec<u8>) -> (r: Option<String>)
    ensures
        r is Some <==> valid_utf8(bytes@),
        r matches Some(s) ==> s@ == decode_utf8(bytes@),
{
    match String::from_utf8(bytes) {
        Ok(s) => Some(s),
        Err(_) => None,
    }
}

/// Reads a fixed-length name field as text.
pub fn decode_name(bytes: &[u8]) -> (name: String)
    ensures
        name@ == spec_decode_name(bytes@),
{
    match string_from_utf8(strip_nul(bytes)) {
        Some(s) => s,
        None => String::from_str("Invalid name"),
    }
}

/// The character that stands for the digit `d`.
pub open spec fn digit_char(d: nat) -> char
    recommends
        d < 10,
{
    if d == 0 {
        '0'
    } else if d == 1 {
        '1'
    } else if d == 2 {
        '2'
    } else if d == 3 {
        '3'
    } else if d == 4 {
        '4'
    } else if d == 5 {
        '5'
    } else if d == 6 {
        '6'
    } else if d == 7 {
        '7'
    } else if d == 8 {
        '8'
    } else {
        '9'
    }
}

/// The decimal digits of `n`, most significant first, without leading zeros.
pub open spec fn decimal_digits(n: nat) -> Seq<char>
    decreases n,
{
    if n < 10 {
        seq![digit_char(n)]
    } else {
        decimal_digits(n / 10).push(digit_char(n % 10))
    }
}

/// The decimal notation of `n`: a minus sign where it is negative, then the
/// digits of its magnitude.
pub open spec fn spec_decimal(n: int) -> Seq<char> {
    if n < 0 {
        seq!['-'] + decimal_digits((-n) as nat)
    } else {
        decimal_digits(n as nat)
    }
}

proof fn lemma_decimal_digits_shape(n: nat)
    ensures
        decimal_digits(n).len() >= 1,
        n >= 10 ==> decimal_digits(n).len() >= 2,
        decimal_digits(n).last() == digit_char(n % 10),
        decimal_digits(n)[0] != '-',
    decreases n,
{
    if n >= 10 {
        lemma_decimal_digits_shape(n / 10);
    }
}

proof fn lemma_decimal_digits_injective(a: nat, b: nat)
    requires
        decimal_digits(a) == decimal_digits(b),
    ensures
        a == b,
    decreases a,
{
    lemma_decimal_digits_shape(a);
    lemma_decimal_digits_shape(b);
    assert(a % 10 == b % 10);
    if a >= 10 {
        assert(b >= 10);
        assert(decimal_digits(a).drop_last() == decimal_digits(a / 10));
        assert(decimal_digits(b).drop_last() == decimal_digits(b / 10));
        lemma_decimal_digits_injective(a / 10, b / 10);
    }
}

/// Two numbers with the same decimal notation are the same number.
pub proof fn lemma_decimal_injective(a: int, b: int)
    requires
        spec_decimal(a) == spec_decimal(b),
    ensures
        a == b,
{
    if a < 0 {
        lemma_decimal_digits_shape((-a) as nat);
        assert(spec_decimal(a)[0] == '-');
    } else {
        lemma_decimal_digits_shape(a as nat);
    }
    if b < 0 {
        lemma_decimal_digits_shape((-b) as nat);
        assert(spec_decimal(b)[0] == '-');
    } else {
        lemma_decimal_digits_shape(b as nat);
    }
    if a < 0 {
        assert(b < 0);
        assert(spec_decimal(a).subrange(1, spec_decimal(a).len() as int) == decimal_digits(
            (-a) as nat,
        ));
        assert(spec_decimal(b).subrange(1, spec_decimal(b).len() as int) == decimal_digits(
            (-b) as nat,
        ));
        lemma_decimal_digits_injective((-a) as nat, (-b) as nat);
    } else {
        assert(b >= 0);
        lemma_decimal_digits_injective(a as nat, b as nat);
    }
}

/// The digits still to be written in front once `rest` is what remains of
/// the number: none when nothing remains.
spec fn leading_digits(rest: nat) -> Seq<char> {
    if rest == 0 {
        Seq::empty()
    } else {
        decimal_digits(rest)
    }
}

fn digit_str(d: u64) -> (s: &'static str)
    requires
        d < 10,
    ensures
        s@ == seq![digit_char(d as nat)],
{
    proof {
        reveal_strlit("0");
        reveal_strlit("1");
        reveal_strlit("2");
        reveal_strlit("3");
        reveal_strlit("4");
        reveal_strlit("5");
        reveal_strlit("6");
        reveal_strlit("7");
        reveal_strlit("8");
        reveal_strlit("9");
    }
    let s: &'static str = match d {
        0 => "0",
        1 => "1",
        2 => "2",
        3 => "3",
        4 => "4",
        5 => "5",
        6 => "6",
        7 => "7",
        8 => "8",
        _ => "9",
    };
    assert(s@ =~= seq![digit_char(d as nat)]);
    s
}

/// Writes `n` in decimal notation.
pub fn decimal(n: i32) -> (s: String)
    ensures
        s@ == spec_decimal(n as int),
{
    let wide: i64 = n as i64;
    let magnitude: u64 = if wide < 0 {
        (-wide) as u64
    } else {
        wide as u64
    };
    let mut digits: String = String::from_str(digit_str(magnitude % 10));
    let mut rest: u64 = magnitude / 10;
    assert(decimal_digits(magnitude as nat) =~= leading_digits(rest as nat) + digits@);
    while rest > 0
        invariant
            decimal_digits(magnitude as nat) == leading_digits(rest as nat) + digits@,
        decreases rest,
    {
        let head: String = String::from_str(digit_str(rest % 10));
        assert(leading_digits(rest as nat) =~= leading_digits((rest / 10) as nat) + head@);
        digits = head.concat(digits.as_str());
        rest = rest / 10;
    }
    assert(leading_digits(0) + digits@ =~= digits@);
    if wide < 0 {
        proof {
            reveal_strlit("-");
        }
        let sign: String = String::from_str("-");
        assert(sign@ =~= seq!['-']);
        sign.concat(digits.as_str())
    } else {
        digits
    }
}

} // verus!
