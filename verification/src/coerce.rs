//! How the text of a cell is read back as a value: a whole number where the
//! text is one, else a decimal, else a boolean, else the text itself.
//!
//! The reading is by appearance only. Text that looks like a number is read
//! as one (a postal code `00501` becomes 501).

use vstd::prelude::*;
use vstd::string::*;
use vstd::utf8::encode_utf8;

verus! {

/// The value a cell is handed to the host application as.
#[derive(Debug)]
pub enum CellValue {
    /// The cell is empty.
    Null,
    /// The text is a whole number.
    Integer(i64),
    /// The text is a decimal; the host reads its value from the text.
    Decimal(String),
    /// The text is exactly `true` or `false`.
    Boolean(bool),
    /// Anything else.
    Text(String),
}

/// Whether `byte` is a decimal digit.
pub open spec fn is_digit(byte: u8) -> bool {
    48 <= byte <= 57
}

/// Whether `bytes` are decimal digits only.
pub open spec fn all_digits(bytes: Seq<u8>) -> bool {
    forall|i: int| 0 <= i < bytes.len() ==> is_digit(#[trigger] bytes[i])
}

/// The number that the digits `bytes` write.
pub open spec fn digits_value(bytes: Seq<u8>) -> nat
    decreases bytes.len(),
{
    if bytes.len() == 0 {
        0
    } else {
        digits_value(bytes.drop_last()) * 10 + (bytes.last() - 48) as nat
    }
}

/// Whether `bytes` start with a plus or minus sign.
pub open spec fn has_sign(bytes: Seq<u8>) -> bool {
    bytes.len() > 0 && (bytes[0] == 43 || bytes[0] == 45)
}

/// The whole number that `bytes` write, if they write one: an optional
/// sign, then at least one digit and nothing but digits, and a value that a
/// signed 64-bit integer holds.
pub open spec fn integer_reading(bytes: Seq<u8>) -> Option<i64> {
    let digits = if has_sign(bytes) {
        bytes.skip(1)
    } else {
        bytes
    };
    let magnitude = digits_value(digits);
    if digits.len() == 0 || !all_digits(digits) {
        None
    } else if bytes[0] == 45 {
        if magnitude <= 0x8000_0000_0000_0000 {
            Some((-magnitude) as i64)
        } else {
            None
        }
    } else if magnitude <= 0x7fff_ffff_ffff_ffff {
        Some(magnitude as i64)
    } else {
        None
    }
}

/// The value that the text of a cell is read as, given whether the text is
/// a decimal. The readings are tried in a fixed order: whole number,
/// decimal, boolean, text.
pub open spec fn coerced(value: CellValue, text: Option<String>, is_decimal: bool) -> bool {
    match text {
        None => value is Null,
        Some(text) => match integer_reading(encode_utf8(text@)) {
            Some(number) => value == CellValue::Integer(number),
            None => if is_decimal {
                value matches CellValue::Decimal(kept) && kept@ == text@
            } else if text@ == "true"@ {
                value == CellValue::Boolean(true)
            } else if text@ == "false"@ {
                value == CellValue::Boolean(false)
            } else {
                value matches CellValue::Text(kept) && kept@ == text@
            },
        },
    }
}

/// Digits appended to digits never write a smaller number.
pub proof fn lemma_digits_value_grows(bytes: Seq<u8>, prefix: int)
    requires
        0 <= prefix <= bytes.len(),
        all_digits(bytes),
    ensures
        digits_value(bytes.take(prefix)) <= digits_value(bytes),
    decreases bytes.len() - prefix,
{
    if prefix == bytes.len() {
        assert(bytes.take(prefix) =~= bytes);
    } else {
        let longer = bytes.take(prefix + 1);
        assert(longer.drop_last() =~= bytes.take(prefix));
        assert(is_digit(longer.last()));
        lemma_digits_value_grows(bytes, prefix + 1);
    }
}

/// Reads `text` as a whole number, if it writes one.
pub fn parse_integer(text: &str) -> (value: Option<i64>)
    ensures
        value == integer_reading(text.spec_bytes()),
{
    let bytes = text.as_bytes();
    let signed = bytes.len() > 0 && (bytes[0] == 43 || bytes[0] == 45);
    let negative = signed && bytes[0] == 45;
    let first: usize = if signed {
        1
    } else {
        0
    };
    if bytes.len() == first {
        return None;
    }
    let ghost digits = bytes@.skip(first as int);
    proof {
        assert(bytes@.skip(0) =~= bytes@);
    }
    let mut magnitude: u64 = 0;
    let mut i: usize = first;
    while i < bytes.len()
        invariant
            first <= i <= bytes@.len(),
            first < bytes@.len(),
            bytes@ == text.spec_bytes(),
            signed == has_sign(bytes@),
            negative == (bytes@[0] == 45),
            first == if signed { 1usize } else { 0usize },
            digits == bytes@.skip(first as int),
            digits == if has_sign(bytes@) { bytes@.skip(1) } else { bytes@ },
            all_digits(digits.take(i - first)),
            magnitude == digits_value(digits.take(i - first)),
            magnitude <= 0x8000_0000_0000_0000,
        decreases bytes@.len() - i,
    {
        let byte = bytes[i];
        proof {
            assert(digits[i - first] == byte);
            assert(digits.take(i - first + 1).drop_last() =~= digits.take(i - first));
        }
        if byte < 48 || byte > 57 {
            assert(!is_digit(digits[i - first]));
            return None;
        }
        proof {
            assert forall|j: int| 0 <= j < i - first + 1 implies is_digit(
                #[trigger] digits.take(i - first + 1)[j],
            ) by {
                if j < i - first {
                    assert(digits.take(i - first)[j] == digits.take(i - first + 1)[j]);
                }
            }
            if all_digits(digits) {
                lemma_digits_value_grows(digits, i - first + 1);
            }
            assert(digits_value(digits.take(i - first + 1)) == magnitude * 10 + (byte - 48));
        }
        if magnitude > 922_337_203_685_477_580 {
            return None;
        }
        let next = magnitude * 10 + (byte - 48) as u64;
        if next > 0x8000_0000_0000_0000 {
            return None;
        }
        magnitude = next;
        i = i + 1;
    }
    proof {
        assert(digits.take(i - first) =~= digits);
    }
    if negative {
        if magnitude == 0x8000_0000_0000_0000 {
            Some(i64::MIN)
        } else {
            Some(-(magnitude as i64))
        }
    } else if magnitude > 0x7fff_ffff_ffff_ffff {
        None
    } else {
        Some(magnitude as i64)
    }
}

/// Reads the text of a cell back as a value. Whether the text is a decimal
/// is for the caller to say; it counts only where the text is no whole number.
pub fn coerce_cell(text: Option<String>, is_decimal: bool) -> (value: CellValue)
    ensures
        coerced(value, text, is_decimal),
{
    match text {
        None => CellValue::Null,
        Some(text) => {
            match parse_integer(text.as_str()) {
                Some(number) => CellValue::Integer(number),
                None => {
                    if is_decimal {
                        CellValue::Decimal(text)
                    } else if text == String::from_str("true") {
                        CellValue::Boolean(true)
                    } else if text == String::from_str("false") {
                        CellValue::Boolean(false)
                    } else {
                        CellValue::Text(text)
                    }
                },
            }
        },
    }
}

} // verus!
