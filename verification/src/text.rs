//! Decimal text: turning unsigned integers into their decimal form and
//! reading unsigned integers back out of text.

use vstd::prelude::*;

verus! {

/// The digit character for `d`.
pub open spec fn dec_digit(d: nat) -> char {
    if d == 0 {
        '0'
    } else if d == 1 {
        '1'
    } else if d == 2 {
        '2'
    } else if d == 3 {
        '3'
    } else if d == 4 {
        '4'
    } else if d == 5 {
        '5'
    } else if d == 6 {
        '6'
    } else if d == 7 {
        '7'
    } else if d == 8 {
        '8'
    } else {
        '9'
    }
}

/// The decimal text of `n`: most significant digit first, no sign, no
/// leading zero except for zero itself.
pub open spec fn dec_str(n: nat) -> Seq<char>
    decreases n,
{
    if n < 10 {
        seq![dec_digit(n)]
    } else {
        dec_str(n / 10) + seq![dec_digit(n % 10)]
    }
}

/// The one-character text of a single decimal digit.
fn digit_str(d: u64) -> (r: &'static str)
    requires
        d < 10,
    ensures
        r@ == seq![dec_digit(d as nat)],
{
    proof {
        reveal_strlit("0");
        reveal_strlit("1");
        reveal_strlit("2");
        reveal_strlit("3");
        reveal_strlit("4");
        reveal_strlit("5");
        reveal_strlit("6");
        reveal_strlit("7");
        reveal_strlit("8");
        reveal_strlit("9");
        assert("0"@ =~= seq!['0']);
        assert("1"@ =~= seq!['1']);
        assert("2"@ =~= seq!['2']);
        assert("3"@ =~= seq!['3']);
        assert("4"@ =~= seq!['4']);
        assert("5"@ =~= seq!['5']);
        assert("6"@ =~= seq!['6']);
        assert("7"@ =~= seq!['7']);
        assert("8"@ =~= seq!['8']);
        assert("9"@ =~= seq!['9']);
    }
    if d == 0 {
        "0"
    } else if d == 1 {
        "1"
    } else if d == 2 {
        "2"
    } else if d == 3 {
        "3"
    } else if d == 4 {
        "4"
    } else if d == 5 {
        "5"
    } else if d == 6 {
        "6"
    } else if d == 7 {
        "7"
    } else if d == 8 {
        "8"
    } else {
        "9"
    }
}

/// The decimal text of `n`.
pub fn u64_to_string(n: u64) -> (r: String)
    ensures
        r@ == dec_str(n as nat),
    decreases n,
{
    if n < 10 {
        String::from_str(digit_str(n))
    } else {
        let mut s = u64_to_string(n / 10);
        s.append(digit_str(n % 10));
        s
    }
}

/// The decimal text of `n`.
pub fn u32_to_string(n: u32) -> (r: String)
    ensures
        r@ == dec_str(n as nat),
{
    u64_to_string(n as u64)
}

/// The decimal text of `n`.
pub fn usize_to_string(n: usize) -> (r: String)
    ensures
        r@ == dec_str(n as nat),
{
    u64_to_string(n as u64)
}

/// Why a piece of text is not the decimal form of a 32-bit unsigned
/// integer.
#[derive(PartialEq, Eq, Structural, Clone, Copy, Debug)]
pub enum NumberError {
    /// The text is empty.
    Empty,
    /// A character that is not a decimal digit stands where a digit must.
    InvalidDigit,
    /// The digits name a number above the largest representable one.
    TooLarge,
}

impl NumberError {
    /// The user-facing description of this error.
    pub fn message(&self) -> (r: &'static str)
        ensures
            *self == NumberError::Empty ==> r@ == "cannot parse integer from empty string"@,
            *self == NumberError::InvalidDigit ==> r@ == "invalid digit found in string"@,
            *self == NumberError::TooLarge ==> r@ == "number too large to fit in target type"@,
    {
        match self {
            NumberError::Empty => "cannot parse integer from empty string",
            NumberError::InvalidDigit => "invalid digit found in string",
            NumberError::TooLarge => "number too large to fit in target type",
        }
    }
}

/// Whether `c` is a decimal digit.
pub open spec fn is_dec_digit(c: char) -> bool {
    48 <= c as int <= 57
}

/// The value of the digit `c`.
pub open spec fn digit_val(c: char) -> nat {
    (c as int - 48) as nat
}

/// One step of reading digits left to right with accumulator `acc`: the
/// first offending character decides the error, exactly as a decimal
/// reader that checks each digit and each accumulation in turn.
pub open spec fn scan_u32(s: Seq<char>, i: int, acc: nat) -> Result<u32, NumberError>
    decreases s.len() - i,
{
    if i < 0 || s.len() <= i {
        Ok(acc as u32)
    } else if !is_dec_digit(s[i]) {
        Err(NumberError::InvalidDigit)
    } else if acc * 10 + digit_val(s[i]) > u32::MAX {
        Err(NumberError::TooLarge)
    } else {
        scan_u32(s, i + 1, acc * 10 + digit_val(s[i]))
    }
}

/// The digits of `s` with one optional leading plus sign removed.
pub open spec fn unsigned_body(s: Seq<char>) -> Seq<char> {
    if s.len() > 0 && s[0] == '+' {
        s.skip(1)
    } else {
        s
    }
}

/// What parsing `s` as a 32-bit unsigned decimal integer yields: empty text
/// is rejected as empty; after an optional leading plus sign there must be
/// at least one digit and nothing but digits; the value must fit.
pub open spec fn spec_parse_u32(s: Seq<char>) -> Result<u32, NumberError> {
    if s.len() == 0 {
        Err(NumberError::Empty)
    } else if unsigned_body(s).len() == 0 {
        Err(NumberError::InvalidDigit)
    } else {
        scan_u32(unsigned_body(s), 0, 0)
    }
}

/// Read a 32-bit unsigned integer from decimal text.
pub fn parse_u32(s: &str) -> (r: Result<u32, NumberError>)
    ensures
        r == spec_parse_u32(s@),
{
    let len = s.unicode_len();
    if len == 0 {
        return Err(NumberError::Empty);
    }
    let first = s.get_char(0);
    let start: usize = if first == '+' {
        1
    } else {
        0
    };
    if len - start == 0 {
        return Err(NumberError::InvalidDigit);
    }
    let ghost body = unsigned_body(s@);
    proof {
        assert(body =~= s@.subrange(start as int, len as int));
    }
    let mut acc: u32 = 0;
    let mut i: usize = start;
    while i < len
        invariant
            start <= i <= len,
            len as nat == s@.len(),
            start < len,
            body == unsigned_body(s@),
            body =~= s@.subrange(start as int, len as int),
            scan_u32(body, 0, 0) == scan_u32(body, i - start, acc as nat),
        decreases len - i,
    {
        let c = s.get_char(i);
        let cv = c as u32;
        if cv < 48 || 57 < cv {
            proof {
                assert(body[i - start] == s@[i as int]);
            }
            return Err(NumberError::InvalidDigit);
        }
        let d = cv - 48;
        let wide: u64 = (acc as u64) * 10 + (d as u64);
        if wide > u32::MAX as u64 {
            proof {
                assert(body[i - start] == s@[i as int]);
                assert((acc as nat) * 10 + digit_val(s@[i as int]) > u32::MAX);
            }
            return Err(NumberError::TooLarge);
        }
        proof {
            assert(body[i - start] == s@[i as int]);
            assert(scan_u32(body, i - start, acc as nat) == scan_u32(
                body,
                i + 1 - start,
                (acc as nat) * 10 + digit_val(s@[i as int]),
            ));
        }
        acc = wide as u32;
        i += 1;
    }
    Ok(acc)
}

} // verus!
