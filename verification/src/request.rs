//! An upload request and what is read out of it before any file is touched: the byte budget
//! and the destination channel.

use vstd::prelude::*;
use vstd::string::*;

verus! {

/// The byte budget of an ordinary account: 10 MiB.
pub const STANDARD_BUDGET: usize = 10 * 1024 * 1024;

/// The byte budget of an account with raised upload limits: 500 MiB.
pub const ELEVATED_BUDGET: usize = 500 * 1024 * 1024;

/// One upload request, as the user interface hands it over.
pub struct SendImagesRequest {
    pub token: String,
    pub channel_id: String,
    pub image_paths: Vec<String>,
    pub nitro_mode: bool,
    pub send_separately: bool,
}

/// The budget an account mode grants.
pub open spec fn budget_of(elevated: bool) -> usize {
    if elevated {
        ELEVATED_BUDGET
    } else {
        STANDARD_BUDGET
    }
}

pub open spec fn is_digit(c: char) -> bool {
    '0' <= c <= '9'
}

pub open spec fn digit_value(c: char) -> nat {
    (c as int - '0' as int) as nat
}

pub open spec fn all_digits(digits: Seq<char>) -> bool {
    forall|i: int| 0 <= i < digits.len() ==> is_digit(#[trigger] digits[i])
}

/// The number a run of decimal digits writes, most significant digit first.
pub open spec fn decimal_value(digits: Seq<char>) -> nat
    decreases digits.len(),
{
    if digits.len() == 0 {
        0
    } else {
        decimal_value(digits.drop_last()) * 10 + digit_value(digits.last())
    }
}

/// `text` without the plus sign it may start with.
pub open spec fn unsigned_part(text: Seq<char>) -> Seq<char> {
    if text.len() > 0 && text[0] == '+' {
        text.skip(1)
    } else {
        text
    }
}

/// The channel a text names: an optional `+`, then at least one decimal digit and nothing
/// else, writing a number that fits 64 bits.
pub open spec fn channel_of(text: Seq<char>) -> Option<u64> {
    let digits = unsigned_part(text);
    if digits.len() > 0 && all_digits(digits) && decimal_value(digits) <= u64::MAX {
        Some(decimal_value(digits) as u64)
    } else {
        None
    }
}

/// Appending digits to a number never makes it smaller.
pub proof fn lemma_decimal_value_grows(digits: Seq<char>, prefix: int)
    requires
        0 <= prefix <= digits.len(),
    ensures
        decimal_value(digits.take(prefix)) <= decimal_value(digits),
    decreases digits.len() - prefix,
{
    if prefix == digits.len() {
        assert(digits.take(prefix) =~= digits);
    } else {
        lemma_decimal_value_grows(digits, prefix + 1);
        assert(digits.take(prefix + 1).drop_last() =~= digits.take(prefix));
    }
}

/// Reads a channel identifier.
pub fn parse_channel_id(text: &str) -> (channel: Option<u64>)
    ensures
        channel == channel_of(text@),
{
    if !text.is_ascii() {
        proof {
            let i = choose|i: int| 0 <= i < text@.len() && !('\0' <= #[trigger] text@[i] <= '\u{7f}');
            let digits = unsigned_part(text@);
            if text@.len() > 0 && text@[0] == '+' {
                assert(digits[i - 1] == text@[i]);
            } else {
                assert(digits[i] == text@[i]);
            }
        }
        return None;
    }
    proof {
        is_ascii_spec_bytes(text);
    }
    let bytes = text.as_bytes();
    let length = bytes.len();
    let first: usize = if length > 0 && bytes[0] == 43 {
        1
    } else {
        0
    };
    let ghost digits = unsigned_part(text@);
    assert(digits =~= text@.skip(first as int));
    if first == length {
        return None;
    }
    let mut value: u64 = 0;
    let mut index: usize = first;
    while index < length
        invariant
            first <= index <= length,
            length == text@.len(),
            is_ascii(text),
            bytes@ == text.spec_bytes(),
            digits == text@.skip(first as int),
            digits == unsigned_part(text@),
            all_digits(digits.take(index - first)),
            value == decimal_value(digits.take(index - first)),
        decreases length - index,
    {
        proof {
            is_ascii_spec_bytes(text);
        }
        let byte = bytes[index];
        let ghost c = text@[index as int];
        assert(digits[index - first] == c);
        assert('\0' <= c <= '\u{7f}');
        assert(byte == c as u8);
        if byte < 48 || byte > 57 {
            assert(!is_digit(digits[index - first]));
            return None;
        }
        let digit = (byte - 48) as u64;
        proof {
            assert(is_digit(c));
            assert(digit == digit_value(c));
            assert(digits.take(index + 1 - first).drop_last() =~= digits.take(index - first));
            assert(digits.take(index + 1 - first).last() == c);
            lemma_decimal_value_grows(digits, index + 1 - first);
            assert(decimal_value(digits.take(index + 1 - first)) == value * 10 + digit);
        }
        if value > (u64::MAX - digit) / 10 {
            return None;
        }
        value = value * 10 + digit;
        index += 1;
    }
    assert(digits.take(index - first) =~= digits);
    Some(value)
}

impl SendImagesRequest {
    /// The byte budget of every file of this request.
    pub fn max_size(&self) -> (budget: usize)
        ensures
            budget == budget_of(self.nitro_mode),
    {
        if self.nitro_mode {
            ELEVATED_BUDGET
        } else {
            STANDARD_BUDGET
        }
    }

    /// The channel the request is addressed to, or `None` where `channel_id` names none.
    pub fn channel(&self) -> (channel: Option<u64>)
        ensures
            channel == channel_of(self.channel_id@),
    {
        parse_channel_id(self.channel_id.as_str())
    }
}

} // verus!
