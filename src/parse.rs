use vstd::prelude::*;
use vstd::arithmetic::div_mod::lemma_breakdown;

verus! {

/// The value of an ASCII hex character as the attribute decoder reads it: lower-case digits
/// only, and every other byte counts as zero.
pub open spec fn nibble(b: u8) -> u8 {
    if 0x30 <= b <= 0x39 {
        (b - 0x30) as u8
    } else if 0x61 <= b <= 0x66 {
        (b - 0x61 + 10) as u8
    } else {
        0
    }
}

/// Decodes one ASCII hex character into its 4-bit value. Bytes outside `0-9a-f` decode to 0:
/// attribute files are trusted, so a stray byte is read as a zero digit rather than an error.
pub fn unhex(b: u8) -> (r: u8)
    ensures
        r == nibble(b),
        r < 16,
{
    if 0x30 <= b && b <= 0x39 {
        b - 0x30
    } else if 0x61 <= b && b <= 0x66 {
        b - 0x61 + 10
    } else {
        0
    }
}

/// Whether `b` is an ASCII hex digit, in either case.
pub open spec fn is_hex_digit(b: u8) -> bool {
    (0x30 <= b <= 0x39) || (0x41 <= b <= 0x46) || (0x61 <= b <= 0x66)
}

/// The value of a hex digit, in either case.
pub open spec fn hex_digit_value(b: u8) -> nat {
    if 0x30 <= b <= 0x39 {
        (b - 0x30) as nat
    } else if 0x41 <= b <= 0x46 {
        (b - 0x41 + 10) as nat
    } else {
        (b - 0x61 + 10) as nat
    }
}

pub open spec fn all_hex_digits(s: Seq<u8>) -> bool {
    forall|i: int| 0 <= i < s.len() ==> is_hex_digit(#[trigger] s[i])
}

/// The number that a string of hex digits spells, most significant digit first.
pub open spec fn hex_value(s: Seq<u8>) -> nat
    decreases s.len(),
{
    if s.len() == 0 {
        0
    } else {
        hex_value(s.drop_last()) * 16 + hex_digit_value(s.last())
    }
}

pub open spec fn pow16(n: nat) -> nat
    decreases n,
{
    if n == 0 {
        1
    } else {
        16 * pow16((n - 1) as nat)
    }
}

/// The lower-case hex character for a digit value below 16.
pub open spec fn hex_char(d: nat) -> u8 {
    if d < 10 {
        (0x30 + d) as u8
    } else {
        (0x61 + d - 10) as u8
    }
}

/// The `n` lowest hex digits of `v`, most significant first, in lower case.
pub open spec fn hex_text(v: nat, n: nat) -> Seq<u8>
    decreases n,
{
    if n == 0 {
        Seq::empty()
    } else {
        hex_text(v / 16, (n - 1) as nat).push(hex_char(v % 16))
    }
}

pub proof fn lemma_pow16_monotone(i: nat, j: nat)
    requires
        i <= j,
    ensures
        pow16(i) <= pow16(j),
    decreases j,
{
    if i < j {
        lemma_pow16_monotone(i, (j - 1) as nat);
    }
}

proof fn lemma_pow16_positive(n: nat)
    ensures
        pow16(n) > 0,
    decreases n,
{
    if n > 0 {
        lemma_pow16_positive((n - 1) as nat);
    }
}

/// Writing the `n` lowest hex digits of a number and reading them back gives the number
/// modulo `16^n`.
pub proof fn lemma_hex_text_value(v: nat, n: nat)
    ensures
        hex_text(v, n).len() == n,
        all_hex_digits(hex_text(v, n)),
        hex_value(hex_text(v, n)) == v % pow16(n),
    decreases n,
{
    if n > 0 {
        let m = (n - 1) as nat;
        lemma_hex_text_value(v / 16, m);
        lemma_pow16_positive(m);
        let s = hex_text(v, n);
        assert(s.drop_last() == hex_text(v / 16, m));
        lemma_breakdown(v as int, 16, pow16(m) as int);
        assert(is_hex_digit(s.last()));
        assert(all_hex_digits(s)) by {
            assert forall|i: int| 0 <= i < s.len() implies is_hex_digit(#[trigger] s[i]) by {
                if i < m {
                    assert(s[i] == hex_text(v / 16, m)[i]);
                }
            }
        }
    } else {
        assert(v % 1 == 0);
    }
}

/// A hex field could not be read.
pub enum HexFieldError {
    /// The input ended before the field's width.
    NotEnoughInput,
    /// A byte within the field's width is not a hex digit.
    InvalidHexDigit,
    /// The field has more digits than a 64-bit result holds.
    TooWide,
}

/// The outcome of reading a hex field of width `n` at the start of `s`.
pub open spec fn fixed_hex_spec(s: Seq<u8>, n: nat) -> Result<u64, HexFieldError> {
    if s.len() < n {
        Err(HexFieldError::NotEnoughInput)
    } else if !all_hex_digits(s.take(n as int)) {
        Err(HexFieldError::InvalidHexDigit)
    } else if n > 16 {
        Err(HexFieldError::TooWide)
    } else {
        Ok(hex_value(s.take(n as int)) as u64)
    }
}

/// Whether the first `n` bytes of `input` are all hex digits.
fn all_digits(input: &[u8], n: usize) -> (r: bool)
    requires
        n <= input@.len(),
    ensures
        r == all_hex_digits(input@.take(n as int)),
{
    let mut i: usize = 0;
    while i < n
        invariant
            n <= input@.len(),
            i <= n,
            all_hex_digits(input@.take(i as int)),
        decreases n - i,
    {
        let b = input[i];
        if !((0x30 <= b && b <= 0x39) || (0x41 <= b && b <= 0x46) || (0x61 <= b && b <= 0x66)) {
            assert(input@.take(n as int)[i as int] == b);
            return false;
        }
        assert forall|k: int| 0 <= k < i + 1 implies is_hex_digit(
            #[trigger] input@.take(i + 1)[k],
        ) by {
            if k < i {
                assert(input@.take(i + 1)[k] == input@.take(i as int)[k]);
            }
        }
        i = i + 1;
    }
    true
}

/// Reads the hex field of width `n` that starts at `start`.
pub fn hex_field_at(input: &[u8], start: usize, n: usize) -> (r: Result<u64, HexFieldError>)
    requires
        start <= input@.len(),
        n <= 16,
    ensures
        r == fixed_hex_spec(input@.skip(start as int), n as nat),
        r is Ok ==> hex_value(input@.skip(start as int).take(n as int)) < pow16(n as nat),
{
    let ghost s = input@.skip(start as int);
    if input.len() - start < n {
        return Err(HexFieldError::NotEnoughInput);
    }
    let len = input.len();
    let mut acc: u64 = 0;
    let mut i: usize = 0;
    proof {
        lemma_pow16_monotone(n as nat, 16);
        reveal_with_fuel(pow16, 17);
        assert(pow16(16) == 0x1_0000_0000_0000_0000);
    }
    while i < n
        invariant
            s == input@.skip(start as int),
            len == input@.len(),
            start + n <= len,
            n <= 16,
            pow16(n as nat) <= 0x1_0000_0000_0000_0000,
            i <= n,
            all_hex_digits(s.take(i as int)),
            acc == hex_value(s.take(i as int)),
            acc < pow16(i as nat),
        decreases n - i,
    {
        let b = input[start + i];
        assert(b == s[i as int]);
        let d: u64 = if 0x30 <= b && b <= 0x39 {
            (b - 0x30) as u64
        } else if 0x41 <= b && b <= 0x46 {
            (b - 0x41 + 10) as u64
        } else if 0x61 <= b && b <= 0x66 {
            (b - 0x61 + 10) as u64
        } else {
            assert(!all_hex_digits(s.take(n as int))) by {
                assert(s.take(n as int)[i as int] == b);
            }
            return Err(HexFieldError::InvalidHexDigit);
        };
        proof {
            lemma_pow16_monotone((i + 1) as nat, n as nat);
            assert(s.take(i + 1).drop_last() == s.take(i as int));
            assert(acc * 16 + d < pow16((i + 1) as nat)) by (nonlinear_arith)
                requires
                    acc < pow16(i as nat),
                    d < 16,
                    pow16((i + 1) as nat) == 16 * pow16(i as nat),
            ;
            assert(all_hex_digits(s.take(i + 1))) by {
                assert forall|k: int| 0 <= k < i + 1 implies is_hex_digit(
                    #[trigger] s.take(i + 1)[k],
                ) by {
                    if k < i {
                        assert(s.take(i + 1)[k] == s.take(i as int)[k]);
                    }
                }
            }
        }
        acc = acc * 16 + d;
        i = i + 1;
    }
    Ok(acc)
}

/// A parser for a hex number written in exactly the given count of characters. It never pads
/// a short field and never stops early at a non-digit.
pub struct FixedLengthHex(pub usize);

impl FixedLengthHex {
    /// Reads the field held by the first `self.0` characters of `input`; the caller goes on
    /// after them. Input shorter than the width is always `NotEnoughInput`.
    pub fn parse_next(&self, input: &[u8]) -> (r: Result<u64, HexFieldError>)
        ensures
            r == fixed_hex_spec(input@, self.0 as nat),
            input@.len() < self.0 ==> r == Err::<u64, HexFieldError>(
                HexFieldError::NotEnoughInput,
            ),
    {
        let n = self.0;
        if input.len() < n {
            return Err(HexFieldError::NotEnoughInput);
        }
        if n > 16 {
            if all_digits(input, n) {
                return Err(HexFieldError::TooWide);
            } else {
                return Err(HexFieldError::InvalidHexDigit);
            }
        }
        let r = hex_field_at(input, 0, n);
        assert(input@.skip(0) == input@);
        r
    }
}

/// Appends the `n` lowest hex digits of `v`, most significant first, in lower case.
pub fn push_hex(out: &mut Vec<u8>, v: u16, n: usize)
    ensures
        final(out)@ == old(out)@ + hex_text(v as nat, n as nat),
    decreases n,
{
    if n > 0 {
        push_hex(out, v / 16, n - 1);
        let d = (v % 16) as u8;
        let c = if d < 10 {
            0x30 + d
        } else {
            0x61 + d - 10
        };
        out.push(c);
        assert(hex_text(v as nat, n as nat) == hex_text((v / 16) as nat, (n - 1) as nat).push(
            hex_char((v % 16) as nat),
        ));
    }
}

} // verus!
