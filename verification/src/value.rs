//! Typed reading of raw payloads.
//!
//! Every key carries a four-character type tag.  A recognised tag selects the
//! rule by which the leading bytes of the payload become a value; an
//! unrecognised tag leaves the payload opaque.
use vstd::prelude::*;
use vstd::string::*;
use crate::endian::{
    as_signed, be_bytes, be_u32, i16_from_bits, i32_from_bits, i64_from_bits, i8_from_bits,
    le_u16, le_u32, le_u64, u16_from_le_bytes, u32_from_be_bytes, u32_from_le_bytes,
    u32_to_be_bytes, u64_from_le_bytes,
};
use crate::io::ValError;
use crate::structs::{SMCBytes, SMCVal, SMC_BYTES_LEN};
use crate::text::{
    ascii_text, decimal, hex_list, is_ascii_bytes, lemma_ascii_is_utf8, push_decimal,
    push_hex_list, push_signed_decimal, signed_decimal, string_from_utf8_lossy, utf8_lossy,
};

verus! {

/// Represents a parsed SMC value in its typed form.
///
/// `flt` is kept as the two 32-bit IEEE-754 patterns that its four bytes
/// spell, least significant byte first (`le`) and most significant byte
/// first (`be`): the byte order of this type is known to differ between
/// keys, so neither reading is preferred.
#[derive(Debug, Clone, PartialEq, Eq)]
pub enum SmcValue {
    /// Single-precision float, as bit patterns in both byte orders
    F32 { le: u32, be: u32 },
    /// Unsigned 8-bit integer
    U8(u8),
    /// Signed 8-bit integer
    I8(i8),
    /// Signed 16-bit integer
    I16(i16),
    /// Unsigned 16-bit integer
    U16(u16),
    /// Unsigned 32-bit integer
    U32(u32),
    /// Signed 32-bit integer
    I32(i32),
    /// Signed 64-bit integer
    I64(i64),
    /// Unsigned 64-bit integer
    U64(u64),
    /// Boolean value
    Bool(bool),
    /// Maybe ascii string
    Chars(String),
    /// Fixed-point value (48.16 format), raw
    Ioft48_16(u64),
}

/// What a [`SmcValue`] is, with text as a sequence of characters.
pub enum SmcValueView {
    F32 { le: u32, be: u32 },
    U8(u8),
    I8(i8),
    I16(i16),
    U16(u16),
    U32(u32),
    I32(i32),
    I64(i64),
    U64(u64),
    Bool(bool),
    Chars(Seq<char>),
    Ioft48_16(u64),
}

impl View for SmcValue {
    type V = SmcValueView;

    open spec fn view(&self) -> SmcValueView {
        match *self {
            SmcValue::F32 { le, be } => SmcValueView::F32 { le, be },
            SmcValue::U8(v) => SmcValueView::U8(v),
            SmcValue::I8(v) => SmcValueView::I8(v),
            SmcValue::I16(v) => SmcValueView::I16(v),
            SmcValue::U16(v) => SmcValueView::U16(v),
            SmcValue::U32(v) => SmcValueView::U32(v),
            SmcValue::I32(v) => SmcValueView::I32(v),
            SmcValue::I64(v) => SmcValueView::I64(v),
            SmcValue::U64(v) => SmcValueView::U64(v),
            SmcValue::Bool(v) => SmcValueView::Bool(v),
            SmcValue::Chars(s) => SmcValueView::Chars(s@),
            SmcValue::Ioft48_16(v) => SmcValueView::Ioft48_16(v),
        }
    }
}

/// The payload types that can be decoded.
#[derive(Debug, Clone, Copy, PartialEq, Eq, Structural)]
pub enum SmcTypeCode {
    Flt,
    Ui8,
    Si8,
    Si16,
    Ui16,
    Ui32,
    Si32,
    Si64,
    Ui64,
    Chars,
    Flag,
    Ioft,
}

impl SmcTypeCode {
    /// The four ASCII characters that name this type on the wire.
    pub open spec fn tag(self) -> Seq<u8> {
        match self {
            SmcTypeCode::Flt => seq!['f' as u8, 'l' as u8, 't' as u8, ' ' as u8],
            SmcTypeCode::Ui8 => seq!['u' as u8, 'i' as u8, '8' as u8, ' ' as u8],
            SmcTypeCode::Si8 => seq!['s' as u8, 'i' as u8, '8' as u8, ' ' as u8],
            SmcTypeCode::Si16 => seq!['s' as u8, 'i' as u8, '1' as u8, '6' as u8],
            SmcTypeCode::Ui16 => seq!['u' as u8, 'i' as u8, '1' as u8, '6' as u8],
            SmcTypeCode::Ui32 => seq!['u' as u8, 'i' as u8, '3' as u8, '2' as u8],
            SmcTypeCode::Si32 => seq!['s' as u8, 'i' as u8, '3' as u8, '2' as u8],
            SmcTypeCode::Si64 => seq!['s' as u8, 'i' as u8, '6' as u8, '4' as u8],
            SmcTypeCode::Ui64 => seq!['u' as u8, 'i' as u8, '6' as u8, '4' as u8],
            SmcTypeCode::Chars => seq!['c' as u8, 'h' as u8, '8' as u8, '*' as u8],
            SmcTypeCode::Flag => seq!['f' as u8, 'l' as u8, 'a' as u8, 'g' as u8],
            SmcTypeCode::Ioft => seq!['i' as u8, 'o' as u8, 'f' as u8, 't' as u8],
        }
    }

    /// The type that a tag names, if it names one.
    pub open spec fn of_tag(code: Seq<u8>) -> Option<SmcTypeCode> {
        if code == SmcTypeCode::Flt.tag() {
            Some(SmcTypeCode::Flt)
        } else if code == SmcTypeCode::Ui8.tag() {
            Some(SmcTypeCode::Ui8)
        } else if code == SmcTypeCode::Si8.tag() {
            Some(SmcTypeCode::Si8)
        } else if code == SmcTypeCode::Si16.tag() {
            Some(SmcTypeCode::Si16)
        } else if code == SmcTypeCode::Ui16.tag() {
            Some(SmcTypeCode::Ui16)
        } else if code == SmcTypeCode::Ui32.tag() {
            Some(SmcTypeCode::Ui32)
        } else if code == SmcTypeCode::Si32.tag() {
            Some(SmcTypeCode::Si32)
        } else if code == SmcTypeCode::Si64.tag() {
            Some(SmcTypeCode::Si64)
        } else if code == SmcTypeCode::Ui64.tag() {
            Some(SmcTypeCode::Ui64)
        } else if code == SmcTypeCode::Chars.tag() {
            Some(SmcTypeCode::Chars)
        } else if code == SmcTypeCode::Flag.tag() {
            Some(SmcTypeCode::Flag)
        } else if code == SmcTypeCode::Ioft.tag() {
            Some(SmcTypeCode::Ioft)
        } else {
            None
        }
    }

    /// Recognises a type tag.
    pub fn from_bytes(code: &[u8; 4]) -> (r: Option<Self>)
        ensures
            r == Self::of_tag(code@),
    {
        let c0 = code[0];
        let c1 = code[1];
        let c2 = code[2];
        let c3 = code[3];
        let r = if c0 == 0x66 && c1 == 0x6c && c2 == 0x74 && c3 == 0x20 {
            Some(SmcTypeCode::Flt)
        } else if c0 == 0x75 && c1 == 0x69 && c2 == 0x38 && c3 == 0x20 {
            Some(SmcTypeCode::Ui8)
        } else if c0 == 0x73 && c1 == 0x69 && c2 == 0x38 && c3 == 0x20 {
            Some(SmcTypeCode::Si8)
        } else if c0 == 0x73 && c1 == 0x69 && c2 == 0x31 && c3 == 0x36 {
            Some(SmcTypeCode::Si16)
        } else if c0 == 0x75 && c1 == 0x69 && c2 == 0x31 && c3 == 0x36 {
            Some(SmcTypeCode::Ui16)
        } else if c0 == 0x75 && c1 == 0x69 && c2 == 0x33 && c3 == 0x32 {
            Some(SmcTypeCode::Ui32)
        } else if c0 == 0x73 && c1 == 0x69 && c2 == 0x33 && c3 == 0x32 {
            Some(SmcTypeCode::Si32)
        } else if c0 == 0x73 && c1 == 0x69 && c2 == 0x36 && c3 == 0x34 {
            Some(SmcTypeCode::Si64)
        } else if c0 == 0x75 && c1 == 0x69 && c2 == 0x36 && c3 == 0x34 {
            Some(SmcTypeCode::Ui64)
        } else if c0 == 0x63 && c1 == 0x68 && c2 == 0x38 && c3 == 0x2a {
            Some(SmcTypeCode::Chars)
        } else if c0 == 0x66 && c1 == 0x6c && c2 == 0x61 && c3 == 0x67 {
            Some(SmcTypeCode::Flag)
        } else if c0 == 0x69 && c1 == 0x6f && c2 == 0x66 && c3 == 0x74 {
            Some(SmcTypeCode::Ioft)
        } else {
            None
        };
        proof {
            let s = code@;
            assert(s =~= seq![c0, c1, c2, c3]);
            assert forall|t: SmcTypeCode| s == t.tag() implies s[0] == t.tag()[0] && s[1]
                == t.tag()[1] && s[2] == t.tag()[2] && s[3] == t.tag()[3] by {}
            match r {
                Some(t) => {
                    assert(s =~= t.tag());
                },
                None => {},
            }
        }
        r
    }
}

/// Every type is named by four characters, and recognised by them: no two
/// types share a tag.
pub proof fn lemma_tag_names_its_type(t: SmcTypeCode)
    ensures
        t.tag().len() == 4,
        SmcTypeCode::of_tag(t.tag()) == Some(t),
{
    let s = t.tag();
    assert forall|u: SmcTypeCode| s == u.tag() implies u == t by {
        assert(s[0] == u.tag()[0] && s[1] == u.tag()[1] && s[2] == u.tag()[2] && s[3]
            == u.tag()[3]);
    }
}

/// The first position at or after `from` that holds a zero byte, or the
/// length of `data` where none does.
pub open spec fn nul_from(data: Seq<u8>, from: int) -> int
    decreases data.len() - from,
{
    if from < 0 || from >= data.len() || data[from] == 0 {
        from
    } else {
        nul_from(data, from + 1)
    }
}

/// The bytes of `data` before its first zero byte; all of `data` where it
/// holds none.
pub open spec fn nul_trimmed(data: Seq<u8>) -> Seq<u8> {
    data.take(nul_from(data, 0))
}

/// Where the text in a payload ends: at the first zero byte at or after
/// `from`, or at the end of the payload where there is none.
pub proof fn lemma_nul_from(data: Seq<u8>, from: int)
    requires
        0 <= from <= data.len(),
    ensures
        from <= nul_from(data, from) <= data.len(),
        forall|i: int| from <= i < nul_from(data, from) ==> data[i] != 0,
        nul_from(data, from) < data.len() ==> data[nul_from(data, from)] == 0,
    decreases data.len() - from,
{
    if from < data.len() && data[from] != 0 {
        lemma_nul_from(data, from + 1);
    }
}

/// The value that a payload holds under a given type: numbers are read from
/// the leading bytes, least significant byte first; a flag is set by any
/// nonzero first byte; text ends before the first zero byte.
pub open spec fn decoded(type_code: SmcTypeCode, data: Seq<u8>) -> SmcValueView
    recommends
        data.len() == 32,
{
    match type_code {
        SmcTypeCode::Flt => SmcValueView::F32 { le: le_u32(data) as u32, be: be_u32(data) as u32 },
        SmcTypeCode::Ui8 => SmcValueView::U8(data[0]),
        SmcTypeCode::Si8 => SmcValueView::I8(as_signed(data[0] as int, 0x80) as i8),
        SmcTypeCode::Si16 => SmcValueView::I16(as_signed(le_u16(data), 0x8000) as i16),
        SmcTypeCode::Ui16 => SmcValueView::U16(le_u16(data) as u16),
        SmcTypeCode::Ui32 => SmcValueView::U32(le_u32(data) as u32),
        SmcTypeCode::Si32 => SmcValueView::I32(as_signed(le_u32(data), 0x8000_0000) as i32),
        SmcTypeCode::Si64 => SmcValueView::I64(
            as_signed(le_u64(data), 0x8000_0000_0000_0000) as i64,
        ),
        SmcTypeCode::Ui64 => SmcValueView::U64(le_u64(data) as u64),
        SmcTypeCode::Flag => SmcValueView::Bool(data[0] != 0),
        SmcTypeCode::Chars => SmcValueView::Chars(utf8_lossy(nul_trimmed(data))),
        SmcTypeCode::Ioft => SmcValueView::Ioft48_16(le_u64(data) as u64),
    }
}

/// Where the text in a payload ends.
fn nul_position(data: &SMCBytes) -> (end: usize)
    ensures
        end == nul_from(data@, 0),
        end <= 32,
{
    let mut i: usize = 0;
    while i < SMC_BYTES_LEN && data[i] != 0
        invariant
            i <= 32,
            data@.len() == 32,
            nul_from(data@, 0) == nul_from(data@, i as int),
        decreases 32 - i,
    {
        i += 1;
    }
    i
}

/// Decodes a payload under a recognised type.
pub fn parse_smc_value(type_code: SmcTypeCode, data: &SMCBytes) -> (value: SmcValue)
    ensures
        value@ == decoded(type_code, data@),
{
    match type_code {
        SmcTypeCode::Flt => {
            let b: [u8; 4] = [data[0], data[1], data[2], data[3]];
            let be = u32_from_be_bytes(&b);
            let le = u32_from_le_bytes(data);
            SmcValue::F32 { le, be }
        },
        SmcTypeCode::Ui8 => SmcValue::U8(data[0]),
        SmcTypeCode::Si8 => SmcValue::I8(i8_from_bits(data[0])),
        SmcTypeCode::Si16 => SmcValue::I16(i16_from_bits(u16_from_le_bytes(data))),
        SmcTypeCode::Ui16 => SmcValue::U16(u16_from_le_bytes(data)),
        SmcTypeCode::Ui32 => SmcValue::U32(u32_from_le_bytes(data)),
        SmcTypeCode::Si32 => SmcValue::I32(i32_from_bits(u32_from_le_bytes(data))),
        SmcTypeCode::Si64 => SmcValue::I64(i64_from_bits(u64_from_le_bytes(data))),
        SmcTypeCode::Ui64 => SmcValue::U64(u64_from_le_bytes(data)),
        SmcTypeCode::Flag => SmcValue::Bool(data[0] != 0),
        SmcTypeCode::Chars => {
            let end = nul_position(data);
            let slice = vstd::slice::slice_subrange(data.as_slice(), 0, end);
            SmcValue::Chars(string_from_utf8_lossy(slice))
        },
        SmcTypeCode::Ioft => SmcValue::Ioft48_16(u64_from_le_bytes(data)),
    }
}

/// The divisor of the fractional part of a 48.16 fixed-point value.
pub const IOFT_FRACTION_DIVISOR: u64 = 65536;

/// The integer part of a raw 48.16 fixed-point value: the raw value without
/// its low 16 bits.
pub open spec fn ioft_integer(raw: u64) -> int {
    raw as int / 65536
}

/// The numerator of the fractional part of a raw 48.16 fixed-point value:
/// its low 16 bits.  The fraction is this number divided by 65536.
pub open spec fn ioft_fraction(raw: u64) -> int {
    raw as int % 65536
}

impl SmcValue {
    /// The integer part of a raw 48.16 fixed-point value.
    pub fn ioft_integer_part(raw: u64) -> (r: u64)
        ensures
            r == ioft_integer(raw),
            r == raw >> 16,
    {
        assert(raw >> 16 == raw / 65536) by (bit_vector);
        raw >> 16
    }

    /// The numerator of the fractional part of a raw 48.16 fixed-point value;
    /// the fraction is this number divided by 65536.
    pub fn ioft_fraction_part(raw: u64) -> (r: u64)
        ensures
            r == ioft_fraction(raw),
            r == raw & 0xFFFF,
            r < IOFT_FRACTION_DIVISOR,
            raw == ioft_integer(raw) * IOFT_FRACTION_DIVISOR + r,
    {
        assert(raw & 0xFFFF == raw % 65536) by (bit_vector);
        raw & 0xFFFF
    }
}

impl SMCVal {
    /// How many bytes of the buffer are meaningful: the declared size, capped
    /// at the size of the buffer.
    pub open spec fn valid_len(&self) -> int {
        if self.data_size <= 32 {
            self.data_size as int
        } else {
            32
        }
    }

    /// Returns the valid portion of the byte data.
    ///
    /// SMC values have a declared size that may be less than the full 32-byte buffer.
    /// This method returns only the bytes that contain actual data.
    pub fn valid_bytes(&self) -> (r: &[u8])
        ensures
            r@ == self.bytes@.take(self.valid_len()),
    {
        let size: usize = if self.data_size <= 32 {
            self.data_size as usize
        } else {
            SMC_BYTES_LEN
        };
        vstd::slice::slice_subrange(self.bytes.as_slice(), 0, size)
    }

    /// Returns the key name as a string.
    pub fn key_str(&self) -> (r: String)
        ensures
            r@ == utf8_lossy(self.key@),
            is_ascii_bytes(self.key@) ==> r@ == ascii_text(self.key@),
    {
        proof {
            if is_ascii_bytes(self.key@) {
                lemma_ascii_is_utf8(self.key@);
            }
        }
        string_from_utf8_lossy(self.key.as_slice())
    }

    /// Returns the data type code as a string.
    ///
    /// For type name that is shorter than 4 bytes, the string will include a tail space.
    /// This is designed intentionally, to keep the name length same.
    pub fn data_type_str(&self) -> (r: String)
        ensures
            r@ == utf8_lossy(self.data_type@),
            is_ascii_bytes(self.data_type@) ==> r@ == ascii_text(self.data_type@),
    {
        proof {
            if is_ascii_bytes(self.data_type@) {
                lemma_ascii_is_utf8(self.data_type@);
            }
        }
        string_from_utf8_lossy(self.data_type.as_slice())
    }

    /// Parses the raw bytes into a typed value.
    ///
    /// Returns `None` if the data type is not recognized.
    pub fn data_value(&self) -> (r: Option<SmcValue>)
        ensures
            match SmcTypeCode::of_tag(self.data_type@) {
                Some(t) => r matches Some(v) && v@ == decoded(t, self.bytes@),
                None => r is None,
            },
    {
        match SmcTypeCode::from_bytes(&self.data_type) {
            Some(type_code) => Some(parse_smc_value(type_code, &self.bytes)),
            None => None,
        }
    }
}

/// The text of a value that is written without floating point, if it is
/// one: numbers in base ten, a flag as `true` or `false`, text as it is.
pub open spec fn plain_text_of(value: SmcValueView) -> Option<Seq<char>> {
    match value {
        SmcValueView::F32 { .. } => None,
        SmcValueView::Ioft48_16(_) => None,
        SmcValueView::U8(v) => Some(decimal(v as nat)),
        SmcValueView::U16(v) => Some(decimal(v as nat)),
        SmcValueView::U32(v) => Some(decimal(v as nat)),
        SmcValueView::U64(v) => Some(decimal(v as nat)),
        SmcValueView::I8(v) => Some(signed_decimal(v as int)),
        SmcValueView::I16(v) => Some(signed_decimal(v as int)),
        SmcValueView::I32(v) => Some(signed_decimal(v as int)),
        SmcValueView::I64(v) => Some(signed_decimal(v as int)),
        SmcValueView::Bool(v) => Some(
            if v {
                "true"@
            } else {
                "false"@
            },
        ),
        SmcValueView::Chars(text) => Some(text),
    }
}

/// The text of a float that was read in both byte orders, from the text of
/// either reading: one number where the two bit patterns are the same, both
/// readings otherwise.
pub open spec fn float_text_of(le: u32, be: u32, le_text: Seq<char>, be_text: Seq<char>) -> Seq<
    char,
> {
    if le == be {
        le_text
    } else {
        "le="@ + le_text + ", be="@ + be_text
    }
}

impl SmcValue {
    /// The value as text, for the values that are written without floating
    /// point; `None` for a float and for a fixed-point value.
    pub fn plain_text(&self) -> (r: Option<String>)
        ensures
            match plain_text_of(self@) {
                Some(text) => r matches Some(s) && s@ == text,
                None => r.is_none(),
            },
    {
        let mut out = String::new();
        match self {
            SmcValue::F32 { .. } => {
                return None;
            },
            SmcValue::Ioft48_16(_) => {
                return None;
            },
            SmcValue::U8(v) => push_decimal(&mut out, *v as u64),
            SmcValue::U16(v) => push_decimal(&mut out, *v as u64),
            SmcValue::U32(v) => push_decimal(&mut out, *v as u64),
            SmcValue::U64(v) => push_decimal(&mut out, *v),
            SmcValue::I8(v) => push_signed_decimal(&mut out, *v as i64),
            SmcValue::I16(v) => push_signed_decimal(&mut out, *v as i64),
            SmcValue::I32(v) => push_signed_decimal(&mut out, *v as i64),
            SmcValue::I64(v) => push_signed_decimal(&mut out, *v),
            SmcValue::Bool(v) => {
                if *v {
                    out.append("true");
                } else {
                    out.append("false");
                }
            },
            SmcValue::Chars(text) => out.append(text.as_str()),
        }
        assert(out@ =~= plain_text_of(self@).unwrap());
        Some(out)
    }

    /// The text of a float from the text of its two readings.
    pub fn float_text(le: u32, be: u32, le_text: &str, be_text: &str) -> (r: String)
        ensures
            r@ == float_text_of(le, be, le_text@, be_text@),
    {
        let mut out = String::new();
        if le == be {
            out.append(le_text);
        } else {
            out.append("le=");
            out.append(le_text);
            out.append(", be=");
            out.append(be_text);
        }
        assert(out@ =~= float_text_of(le, be, le_text@, be_text@));
        out
    }
}

impl SMCVal {
    /// The value as a line of text: `no data` where the declared size is
    /// zero; otherwise the key, the type, the size, the meaningful bytes in
    /// hexadecimal and, where `value` gives one, the text of the typed value.
    pub open spec fn text(&self, value: Option<Seq<char>>) -> Seq<char> {
        if self.data_size == 0 {
            "no data"@
        } else {
            utf8_lossy(self.key@) + " "@ + utf8_lossy(self.data_type@) + " size: "@ + decimal(
                self.data_size as nat,
            ) + "(bytes"@ + hex_list(self.bytes@.take(self.valid_len())) + ")"@ + (match value {
                Some(v) => " value: "@ + v,
                None => Seq::empty(),
            })
        }
    }

    /// Writes the value as a line of text.  `value` is the text of the
    /// typed value, where there is one.
    pub fn to_text(&self, value: Option<&str>) -> (r: String)
        ensures
            r@ == self.text(
                match value {
                    Some(v) => Some(v@),
                    None => None,
                },
            ),
    {
        let mut out = String::new();
        if self.data_size == 0 {
            out.append("no data");
            assert(out@ =~= "no data"@);
            return out;
        }
        let key = self.key_str();
        let data_type = self.data_type_str();
        out.append(key.as_str());
        out.append(" ");
        out.append(data_type.as_str());
        out.append(" size: ");
        push_decimal(&mut out, self.data_size as u64);
        out.append("(bytes");
        push_hex_list(&mut out, self.valid_bytes());
        out.append(")");
        match value {
            Some(v) => {
                out.append(" value: ");
                out.append(v);
            },
            None => {},
        }
        assert(out@ =~= self.text(
            match value {
                Some(v) => Some(v@),
                None => None,
            },
        ));
        out
    }
}

impl ValError {
    /// The error as a line of text: the key, the type and the size as far as
    /// the lookup learned them, then the position and the description of
    /// the status code.
    pub open spec fn text(&self, error: Seq<char>) -> Seq<char> {
        (match self.key {
            Some(key) => utf8_lossy(be_bytes(key)@) + " "@,
            None => Seq::empty(),
        }) + (match self.data_type {
            Some(data_type) => utf8_lossy(be_bytes(data_type)@) + " "@,
            None => Seq::empty(),
        }) + (match self.data_size {
            Some(size) => "size: "@ + decimal(size as nat) + " "@,
            None => Seq::empty(),
        }) + "index: "@ + decimal(self.index as nat) + ", error: "@ + error
    }

    /// Writes the error as a line of text.  `error` describes the status
    /// code.
    pub fn to_text(&self, error: &str) -> (r: String)
        ensures
            r@ == self.text(error@),
    {
        let mut out = String::new();
        match self.key {
            Some(key) => {
                let name = string_from_utf8_lossy(u32_to_be_bytes(key).as_slice());
                out.append(name.as_str());
                out.append(" ");
            },
            None => {},
        }
        match self.data_type {
            Some(data_type) => {
                let name = string_from_utf8_lossy(u32_to_be_bytes(data_type).as_slice());
                out.append(name.as_str());
                out.append(" ");
            },
            None => {},
        }
        match self.data_size {
            Some(size) => {
                out.append("size: ");
                push_decimal(&mut out, size as u64);
                out.append(" ");
            },
            None => {},
        }
        out.append("index: ");
        push_decimal(&mut out, self.index as u64);
        out.append(", error: ");
        out.append(error);
        assert(out@ =~= self.text(error@));
        out
    }
}

} // verus!
