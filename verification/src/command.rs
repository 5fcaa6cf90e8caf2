//! Keys and payloads as they are typed on a command line.
//!
//! A key is named by exactly four bytes.  A payload is written as
//! hexadecimal text, two characters to the byte, for at most 32 bytes.
use vstd::prelude::*;
use vstd::string::*;
use crate::text::{is_ascii_bytes, string_from_utf8_lossy, utf8_lossy};

verus! {

/// Why the text of a key or of a payload was turned down.
#[derive(Clone, Copy, Debug, PartialEq, Eq)]
pub enum CommandError {
    /// The key is not exactly four bytes long.
    InvalidKey,
    /// The payload text holds a character outside ASCII.
    ValueNotAscii,
    /// The payload text has an odd number of characters.
    InvalidValue,
    /// The payload text spells more than 32 bytes.
    ValueTooLong,
    /// These two characters of the payload text do not spell a byte.
    NotHex { chunk: [u8; 2] },
}

/// The value of a hexadecimal digit, in either case.
pub open spec fn hex_digit(c: u8) -> Option<int> {
    if '0' as u8 <= c <= '9' as u8 {
        Some(c - '0' as u8)
    } else if 'a' as u8 <= c <= 'f' as u8 {
        Some(c - 'a' as u8 + 10)
    } else if 'A' as u8 <= c <= 'F' as u8 {
        Some(c - 'A' as u8 + 10)
    } else {
        None
    }
}

/// The byte that two characters spell: two hexadecimal digits, or a plus
/// sign and one digit, as the standard parser of unsigned integers reads
/// them.
pub open spec fn hex_pair(a: u8, b: u8) -> Option<int> {
    match hex_digit(b) {
        None => None,
        Some(low) => match hex_digit(a) {
            Some(high) => Some(16 * high + low),
            None => if a == '+' as u8 {
                Some(low)
            } else {
                None
            },
        },
    }
}

/// The first pair of characters at or after pair `from` that spells no byte,
/// or the number of pairs where every one does.
pub open spec fn bad_pair_from(text: Seq<u8>, from: int) -> int
    decreases text.len() / 2 - from,
{
    if from < 0 || from >= text.len() / 2 || hex_pair(text[2 * from], text[2 * from + 1]) is None {
        from
    } else {
        bad_pair_from(text, from + 1)
    }
}

/// The bytes that hexadecimal text spells, pair by pair.
pub open spec fn hex_bytes(text: Seq<u8>) -> Seq<u8> {
    Seq::new(
        (text.len() / 2) as nat,
        |i: int| hex_pair(text[2 * i], text[2 * i + 1]).unwrap() as u8,
    )
}

/// What the payload text is read as: the bytes it spells, or the first
/// reason why it spells none.
pub open spec fn hex_value(text: Seq<u8>) -> Result<Seq<u8>, CommandError> {
    if !is_ascii_bytes(text) {
        Err(CommandError::ValueNotAscii)
    } else if text.len() % 2 != 0 {
        Err(CommandError::InvalidValue)
    } else if text.len() / 2 > 32 {
        Err(CommandError::ValueTooLong)
    } else {
        let bad = bad_pair_from(text, 0);
        if bad < text.len() / 2 {
            Err(CommandError::NotHex { chunk: [text[2 * bad], text[2 * bad + 1]] })
        } else {
            Ok(hex_bytes(text))
        }
    }
}

/// What the name of a key is read as: its bytes, where there are four.
pub open spec fn key_value(text: Seq<u8>) -> Result<Seq<u8>, CommandError> {
    if text.len() == 4 {
        Ok(text)
    } else {
        Err(CommandError::InvalidKey)
    }
}

/// Reads one hexadecimal digit.
fn parse_hex_digit(c: u8) -> (r: Option<u8>)
    ensures
        match hex_digit(c) {
            Some(v) => r == Some(v as u8) && 0 <= v < 16,
            None => r.is_none(),
        },
{
    if 0x30 <= c && c <= 0x39 {
        Some(c - 0x30)
    } else if 0x61 <= c && c <= 0x66 {
        Some(c - 0x61 + 10)
    } else if 0x41 <= c && c <= 0x46 {
        Some(c - 0x41 + 10)
    } else {
        None
    }
}

/// Reads the byte that two characters spell.
fn parse_hex_pair(a: u8, b: u8) -> (r: Option<u8>)
    ensures
        match hex_pair(a, b) {
            Some(v) => r == Some(v as u8) && 0 <= v < 256,
            None => r.is_none(),
        },
{
    match parse_hex_digit(b) {
        None => None,
        Some(low) => match parse_hex_digit(a) {
            Some(high) => Some(16 * high + low),
            None => if a == 0x2B {
                Some(low)
            } else {
                None
            },
        },
    }
}

/// True when every byte is below 128.
fn all_ascii(bytes: &[u8]) -> (r: bool)
    ensures
        r == is_ascii_bytes(bytes@),
{
    let mut i: usize = 0;
    while i < bytes.len()
        invariant
            i <= bytes@.len(),
            forall|j: int| 0 <= j < i ==> #[trigger] bytes@[j] < 0x80,
        decreases bytes@.len() - i,
    {
        if bytes[i] >= 0x80 {
            return false;
        }
        i += 1;
    }
    true
}

/// Reads the name of a key.
pub fn parse_key(key: &str) -> (r: Result<[u8; 4], CommandError>)
    ensures
        match key_value(key.spec_bytes()) {
            Ok(bytes) => r matches Ok(k) && k@ == bytes,
            Err(e) => r == Err::<[u8; 4], CommandError>(e),
        },
{
    let bytes = key.as_bytes();
    if bytes.len() != 4 {
        return Err(CommandError::InvalidKey);
    }
    let k: [u8; 4] = [bytes[0], bytes[1], bytes[2], bytes[3]];
    assert(k@ =~= bytes@);
    Ok(k)
}

/// Reads a payload written as hexadecimal text.
pub fn parse_hex(value: &str) -> (r: Result<Vec<u8>, CommandError>)
    ensures
        match hex_value(value.spec_bytes()) {
            Ok(bytes) => r matches Ok(v) && v@ == bytes,
            Err(e) => r matches Err(f) && f == e,
        },
{
    let text = value.as_bytes();
    if !all_ascii(text) {
        return Err(CommandError::ValueNotAscii);
    }
    let n = text.len();
    if n % 2 != 0 {
        return Err(CommandError::InvalidValue);
    }
    let pairs = n / 2;
    if pairs > 32 {
        return Err(CommandError::ValueTooLong);
    }
    let mut out: Vec<u8> = Vec::with_capacity(pairs);
    let mut i: usize = 0;
    while i < pairs
        invariant
            i <= pairs <= 32,
            pairs == text@.len() / 2,
            text@.len() == 2 * pairs,
            text@ == value.spec_bytes(),
            is_ascii_bytes(text@),
            out@.len() == i,
            bad_pair_from(text@, 0) == bad_pair_from(text@, i as int),
            forall|j: int| 0 <= j < i ==> out@[j] == hex_bytes(text@)[j],
        decreases pairs - i,
    {
        let a = text[2 * i];
        let b = text[2 * i + 1];
        match parse_hex_pair(a, b) {
            None => {
                let chunk: [u8; 2] = [a, b];
                assert(chunk =~= [text@[2 * (i as int)], text@[2 * (i as int) + 1]]);
                return Err(CommandError::NotHex { chunk });
            },
            Some(byte) => {
                out.push(byte);
            },
        }
        i += 1;
    }
    assert(out@ =~= hex_bytes(text@));
    Ok(out)
}

impl CommandError {
    /// The message that tells the user what is wrong.
    pub open spec fn text(self) -> Seq<char> {
        match self {
            CommandError::InvalidKey => "Invalid key!"@,
            CommandError::ValueNotAscii => "Value should be ascii!"@,
            CommandError::InvalidValue => "Invalid value!"@,
            CommandError::ValueTooLong => "value is too long!"@,
            CommandError::NotHex { chunk } => "can not parse "@ + utf8_lossy(chunk@) + " as hex"@,
        }
    }

    /// Writes the message that tells the user what is wrong.
    pub fn message(&self) -> (r: String)
        ensures
            r@ == self.text(),
    {
        let mut out = String::new();
        match self {
            CommandError::InvalidKey => out.append("Invalid key!"),
            CommandError::ValueNotAscii => out.append("Value should be ascii!"),
            CommandError::InvalidValue => out.append("Invalid value!"),
            CommandError::ValueTooLong => out.append("value is too long!"),
            CommandError::NotHex { chunk } => {
                let pair = string_from_utf8_lossy(chunk.as_slice());
                out.append("can not parse ");
                out.append(pair.as_str());
                out.append(" as hex");
            },
        }
        assert(out@ =~= self.text());
        out
    }
}

} // verus!
