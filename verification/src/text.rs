//! Text building blocks: digits, percent-encoding, trimming and comparison.

use percent_encoding::percent_encode_byte;
use vstd::prelude::*;
use vstd::string::*;

verus! {

/// `String::push` appends one character.
pub assume_specification[ String::push ](string: &mut String, c: char)
    ensures
        final(string)@ == old(string)@.push(c),
;

/// The digit that stands for `value` in base ten or, up to fifteen, in lower-case base sixteen.
pub open spec fn lower_digit(value: int) -> char {
    if value < 10 {
        ('0' as int + value) as char
    } else {
        ('a' as int + (value - 10)) as char
    }
}

/// The digit that stands for `value` in upper-case base sixteen.
pub open spec fn upper_digit(value: int) -> char {
    if value < 10 {
        ('0' as int + value) as char
    } else {
        ('A' as int + (value - 10)) as char
    }
}

/// The upper-case hexadecimal digit of a nibble.
pub fn hex(nibble: u8) -> (digit: char)
    requires
        nibble < 16,
    ensures
        digit == upper_digit(nibble as int),
{
    if nibble < 10 {
        (0x30 + nibble) as char
    } else {
        (0x41 + (nibble - 10)) as char
    }
}

/// The lower-case hexadecimal digit of a nibble.
pub fn lower_hex(nibble: u8) -> (digit: char)
    requires
        nibble < 16,
    ensures
        digit == lower_digit(nibble as int),
{
    if nibble < 10 {
        (0x30 + nibble) as char
    } else {
        (0x61 + (nibble - 10)) as char
    }
}

/// The decimal digits of `value`, without leading zeros.
pub open spec fn decimal_digits(value: nat) -> Seq<char>
    decreases value,
{
    if value < 10 {
        seq![lower_digit(value as int)]
    } else {
        decimal_digits(value / 10).push(lower_digit((value % 10) as int))
    }
}

/// Appends the decimal digits of `value`.
pub fn push_decimal(out: &mut String, value: u64)
    ensures
        final(out)@ == old(out)@ + decimal_digits(value as nat),
    decreases value,
{
    if value >= 10 {
        push_decimal(out, value / 10);
    }
    let ghost before = out@;
    out.push(lower_hex((value % 10) as u8));
    proof {
        if value < 10 {
            assert(out@ =~= before + decimal_digits(value as nat));
        } else {
            assert(out@ =~= old(out)@ + decimal_digits(value as nat));
        }
    }
}

/// The decimal digits of `value` as a text of its own.
pub fn decimal(value: u64) -> (text: String)
    ensures
        text@ == decimal_digits(value as nat),
{
    let mut text = String::new();
    push_decimal(&mut text, value);
    proof {
        assert(text@ =~= decimal_digits(value as nat));
    }
    text
}

/// The last `width` upper-case hexadecimal digits of `value`.
pub open spec fn upper_hex_digits(value: nat, width: nat) -> Seq<char>
    decreases width,
{
    if width == 0 {
        Seq::empty()
    } else {
        upper_hex_digits(value / 16, (width - 1) as nat).push(upper_digit((value % 16) as int))
    }
}

/// The last `width` lower-case hexadecimal digits of `value`.
pub open spec fn lower_hex_digits(value: nat, width: nat) -> Seq<char>
    decreases width,
{
    if width == 0 {
        Seq::empty()
    } else {
        lower_hex_digits(value / 16, (width - 1) as nat).push(lower_digit((value % 16) as int))
    }
}

/// Appends `width` upper-case hexadecimal digits of `value`.
pub fn push_upper_hex(out: &mut String, value: u32, width: u8)
    ensures
        final(out)@ == old(out)@ + upper_hex_digits(value as nat, width as nat),
    decreases width,
{
    if width > 0 {
        push_upper_hex(out, value / 16, width - 1);
        out.push(hex((value % 16) as u8));
    }
    proof {
        assert(out@ =~= old(out)@ + upper_hex_digits(value as nat, width as nat));
    }
}

/// Appends `width` lower-case hexadecimal digits of `value`.
pub fn push_lower_hex(out: &mut String, value: u32, width: u8)
    ensures
        final(out)@ == old(out)@ + lower_hex_digits(value as nat, width as nat),
    decreases width,
{
    if width > 0 {
        push_lower_hex(out, value / 16, width - 1);
        out.push(lower_hex((value % 16) as u8));
    }
    proof {
        assert(out@ =~= old(out)@ + lower_hex_digits(value as nat, width as nat));
    }
}

/// Four lower-case hexadecimal digits.
pub fn four_hex(value: u16) -> (text: String)
    ensures
        text@ == lower_hex_digits(value as nat, 4),
{
    let mut text = String::new();
    push_lower_hex(&mut text, value as u32, 4);
    proof {
        assert(text@ =~= lower_hex_digits(value as nat, 4));
    }
    text
}

/// The upper-case hexadecimal digits of `value`, without leading zeros.
pub open spec fn short_upper_hex_digits(value: nat) -> Seq<char>
    decreases value,
{
    if value < 16 {
        seq![upper_digit(value as int)]
    } else {
        short_upper_hex_digits(value / 16).push(upper_digit((value % 16) as int))
    }
}

/// Appends the upper-case hexadecimal digits of `value`, without leading zeros.
pub fn push_short_upper_hex(out: &mut String, value: u32)
    ensures
        final(out)@ == old(out)@ + short_upper_hex_digits(value as nat),
    decreases value,
{
    if value >= 16 {
        push_short_upper_hex(out, value / 16);
    }
    out.push(hex((value % 16) as u8));
    proof {
        assert(out@ =~= old(out)@ + short_upper_hex_digits(value as nat));
    }
}

/// Two lower-case hexadecimal digits for each byte, in order.
pub open spec fn byte_hex_digits(bytes: Seq<u8>) -> Seq<char>
    decreases bytes.len(),
{
    if bytes.len() == 0 {
        Seq::empty()
    } else {
        byte_hex_digits(bytes.drop_last()) + lower_hex_digits(bytes.last() as nat, 2)
    }
}

/// Appends two lower-case hexadecimal digits for each byte.
pub fn push_byte_hex(out: &mut String, bytes: &[u8])
    ensures
        final(out)@ == old(out)@ + byte_hex_digits(bytes@),
{
    let mut index: usize = 0;
    proof {
        assert(out@ =~= old(out)@ + byte_hex_digits(bytes@.take(0)));
    }
    while index < bytes.len()
        invariant
            index <= bytes@.len(),
            out@ == old(out)@ + byte_hex_digits(bytes@.take(index as int)),
        decreases bytes@.len() - index,
    {
        push_lower_hex(out, bytes[index] as u32, 2);
        proof {
            let done = bytes@.take(index as int + 1);
            assert(done.drop_last() =~= bytes@.take(index as int));
            assert(out@ =~= old(out)@ + byte_hex_digits(done));
        }
        index += 1;
    }
    proof {
        assert(bytes@.take(index as int) =~= bytes@);
    }
}

/// The decimal digits of bytes, with commas between them.
pub open spec fn byte_list(bytes: Seq<u8>) -> Seq<char>
    decreases bytes.len(),
{
    if bytes.len() == 0 {
        Seq::empty()
    } else if bytes.len() == 1 {
        decimal_digits(bytes[0] as nat)
    } else {
        byte_list(bytes.drop_last()) + ", "@ + decimal_digits(bytes.last() as nat)
    }
}

/// Appends the decimal digits of bytes, with commas between them.
pub fn push_byte_list(out: &mut String, bytes: &[u8])
    ensures
        final(out)@ == old(out)@ + byte_list(bytes@),
{
    let ghost before = out@;
    let mut index: usize = 0;
    proof {
        assert(before + byte_list(bytes@.take(0)) =~= before);
    }
    while index < bytes.len()
        invariant
            index <= bytes@.len(),
            out@ == before + byte_list(bytes@.take(index as int)),
        decreases bytes@.len() - index,
    {
        let ghost so_far = out@;
        if index > 0 {
            out.append(", ");
        }
        push_decimal(out, bytes[index] as u64);
        index += 1;
        proof {
            let taken = bytes@.take(index as int);
            assert(taken.drop_last() =~= bytes@.take(index - 1));
            assert(out@ =~= before + byte_list(taken));
        }
    }
    proof {
        assert(bytes@.take(index as int) =~= bytes@);
    }
}

/// What one byte becomes: itself where `plain` holds, else a percent sign and two upper-case
/// hexadecimal digits.
pub open spec fn percent_encoded_byte(byte: u8, plain: spec_fn(u8) -> bool) -> Seq<char> {
    if plain(byte) {
        seq![byte as char]
    } else {
        seq!['%', upper_digit((byte / 16) as int), upper_digit((byte % 16) as int)]
    }
}

/// The percent-encoding of `bytes` that leaves exactly the bytes with `plain` as they are.
pub open spec fn percent_encoded(bytes: Seq<u8>, plain: spec_fn(u8) -> bool) -> Seq<char>
    decreases bytes.len(),
{
    if bytes.len() == 0 {
        Seq::empty()
    } else {
        percent_encoded(bytes.drop_last(), plain) + percent_encoded_byte(bytes.last(), plain)
    }
}

/// A byte that a resource identity segment keeps as it is: printable ASCII without the
/// separators and delimiters of the identity syntax.
pub open spec fn segment_plain(byte: u8) -> bool {
    &&& 0x20 < byte < 0x7f
    &&& !(byte == '%' as u8 || byte == '/' as u8 || byte == '?' as u8 || byte == '#' as u8)
    &&& !(byte == '[' as u8 || byte == ']' as u8 || byte == '@' as u8 || byte == '!' as u8)
    &&& !(byte == '$' as u8 || byte == '&' as u8 || byte == '\'' as u8 || byte == '(' as u8)
    &&& !(byte == ')' as u8 || byte == '*' as u8 || byte == '+' as u8 || byte == ',' as u8)
    &&& !(byte == ';' as u8 || byte == '=' as u8 || byte == ':' as u8)
}

/// A byte that a device name keeps as it is: printable ASCII without the identity separators.
pub open spec fn name_plain(byte: u8) -> bool {
    &&& 0x20 < byte < 0x7f
    &&& !(byte == '%' as u8 || byte == '/' as u8 || byte == '?' as u8 || byte == '#' as u8)
    &&& byte != ':' as u8
}

/// The encoding of an identity segment.
pub open spec fn encoded_segment(value: Seq<char>) -> Seq<char> {
    percent_encoded(vstd::utf8::encode_utf8(value), |byte: u8| segment_plain(byte))
}

/// The encoding of a device name.
pub open spec fn encoded_name(value: Seq<char>) -> Seq<char> {
    percent_encoded(vstd::utf8::encode_utf8(value), |byte: u8| name_plain(byte))
}

/// `percent_encoding::percent_encode_byte` gives a percent sign and the two upper-case hexadecimal
/// digits of the byte.
pub assume_specification[ percent_encode_byte ](byte: u8) -> (encoded: &'static str)
    ensures
        encoded@ == seq!['%', upper_digit((byte / 16) as int), upper_digit((byte % 16) as int)],
;

/// Which bytes an identity keeps as they are.
#[derive(Clone, Copy, Debug, PartialEq, Eq, Structural)]
pub enum PlainBytes {
    /// Those of an identity segment.
    Segment,
    /// Those of a device name.
    Name,
}

impl PlainBytes {
    /// Whether the byte stays as it is.
    pub open spec fn keeps(self, byte: u8) -> bool {
        match self {
            PlainBytes::Segment => segment_plain(byte),
            PlainBytes::Name => name_plain(byte),
        }
    }

    /// Whether the byte stays as it is.
    pub fn contains(self, byte: u8) -> (kept: bool)
        ensures
            kept == self.keeps(byte),
    {
        let printable = 0x20 < byte && byte < 0x7f;
        let separator = byte == 0x25 || byte == 0x2f || byte == 0x3f || byte == 0x23 || byte
            == 0x3a;
        match self {
            PlainBytes::Name => printable && !separator,
            PlainBytes::Segment => {
                let bracket = byte == 0x5b || byte == 0x5d || byte == 0x28 || byte == 0x29;
                let delimiter = byte == 0x40 || byte == 0x21 || byte == 0x24 || byte == 0x26
                    || byte == 0x27 || byte == 0x2a || byte == 0x2b || byte == 0x2c || byte
                    == 0x3b || byte == 0x3d;
                printable && !separator && !bracket && !delimiter
            },
        }
    }
}

/// The percent-encoding of `value` that keeps the bytes of `kept`.
pub fn percent_encode(value: &str, kept: PlainBytes) -> (encoded: String)
    ensures
        encoded@ == percent_encoded(
            vstd::utf8::encode_utf8(value@),
            |byte: u8| kept.keeps(byte),
        ),
{
    let mut encoded = String::new();
    let bytes = value.as_bytes();
    let ghost plain = |byte: u8| kept.keeps(byte);
    let mut index: usize = 0;
    while index < bytes.len()
        invariant
            index <= bytes@.len(),
            plain == (|byte: u8| kept.keeps(byte)),
            encoded@ == percent_encoded(bytes@.take(index as int), plain),
        decreases bytes@.len() - index,
    {
        let byte: u8 = bytes[index];
        if kept.contains(byte) {
            encoded.push(byte as char);
        } else {
            encoded.append(percent_encode_byte(byte));
        }
        proof {
            let done = bytes@.take(index as int + 1);
            assert(done.drop_last() =~= bytes@.take(index as int));
            assert(encoded@ =~= percent_encoded(done, plain));
        }
        index += 1;
    }
    proof {
        assert(bytes@.take(index as int) =~= bytes@);
    }
    encoded
}

/// The encoding of an identity segment.
pub fn encode_segment(value: &str) -> (encoded: String)
    ensures
        encoded@ == encoded_segment(value@),
{
    proof {
        assert((|byte: u8| PlainBytes::Segment.keeps(byte)) =~= (|byte: u8| segment_plain(byte)));
    }
    percent_encode(value, PlainBytes::Segment)
}

/// The encoding of a device name.
pub fn encode(value: &str) -> (encoded: String)
    ensures
        encoded@ == encoded_name(value@),
{
    proof {
        assert((|byte: u8| PlainBytes::Name.keeps(byte)) =~= (|byte: u8| name_plain(byte)));
    }
    percent_encode(value, PlainBytes::Name)
}

/// A character with the Unicode property White_Space.
pub open spec fn is_white_space(c: char) -> bool {
    ||| 0x9 <= c as int <= 0xd
    ||| c as int == 0x20 || c as int == 0x85 || c as int == 0xa0 || c as int == 0x1680
    ||| 0x2000 <= c as int <= 0x200a
    ||| c as int == 0x2028 || c as int == 0x2029 || c as int == 0x202f
    ||| c as int == 0x205f || c as int == 0x3000
}

/// `text` from its first character that is not white space on.
pub open spec fn trimmed_start(text: Seq<char>) -> Seq<char>
    decreases text.len(),
{
    if text.len() > 0 && is_white_space(text[0]) {
        trimmed_start(text.skip(1))
    } else {
        text
    }
}

/// `text` up to its last character that is not white space.
pub open spec fn trimmed_end(text: Seq<char>) -> Seq<char>
    decreases text.len(),
{
    if text.len() > 0 && is_white_space(text.last()) {
        trimmed_end(text.drop_last())
    } else {
        text
    }
}

/// `text` without white space at either end.
pub open spec fn trimmed(text: Seq<char>) -> Seq<char> {
    trimmed_end(trimmed_start(text))
}

/// `str::trim` removes the characters with the Unicode property White_Space at both ends.
#[verifier::external_body]
pub(crate) fn trim(value: &str) -> (result: &str)
    ensures
        result@ == trimmed(value@),
{
    value.trim()
}

/// `str::eq` compares the characters of two texts.
#[verifier::external_body]
pub(crate) fn same_text(left: &str, right: &str) -> (same: bool)
    ensures
        same == (left@ == right@),
{
    left == right
}

/// The trimmed text, where there is one and it is not empty.
pub open spec fn spec_non_empty(value: Option<Seq<char>>) -> Option<Seq<char>> {
    match value {
        Some(text) => if trimmed(text).len() > 0 {
            Some(trimmed(text))
        } else {
            None
        },
        None => None,
    }
}

/// The characters of an optional text.
pub open spec fn optional_text(value: Option<String>) -> Option<Seq<char>> {
    match value {
        Some(text) => Some(text@),
        None => None,
    }
}

/// The trimmed text, where there is one and it is not empty.
pub fn non_empty(value: &Option<String>) -> (result: Option<&str>)
    ensures
        match result {
            Some(text) => spec_non_empty(optional_text(*value)) == Some(text@),
            None => spec_non_empty(optional_text(*value)) is None,
        },
{
    match value {
        Some(text) => {
            let kept = trim(text.as_str());
            if kept.is_empty() {
                None
            } else {
                Some(kept)
            }
        },
        None => None,
    }
}

/// A byte that a camera identity keeps as it is: an ASCII letter or digit, or one of `-_.~`.
pub open spec fn unreserved(byte: u8) -> bool {
    ||| 0x30 <= byte <= 0x39
    ||| 0x41 <= byte <= 0x5a
    ||| 0x61 <= byte <= 0x7a
    ||| byte == '-' as u8 || byte == '_' as u8 || byte == '.' as u8 || byte == '~' as u8
}

/// Appends the percent-encoding of `value` that keeps the unreserved bytes.
pub fn push_unreserved_encoded(out: &mut String, value: &str)
    ensures
        final(out)@ == old(out)@ + percent_encoded(
            vstd::utf8::encode_utf8(value@),
            |byte: u8| unreserved(byte),
        ),
{
    let bytes = value.as_bytes();
    let ghost plain = |byte: u8| unreserved(byte);
    let mut index: usize = 0;
    proof {
        assert(out@ =~= old(out)@ + percent_encoded(bytes@.take(0), plain));
    }
    while index < bytes.len()
        invariant
            index <= bytes@.len(),
            plain == (|byte: u8| unreserved(byte)),
            out@ == old(out)@ + percent_encoded(bytes@.take(index as int), plain),
        decreases bytes@.len() - index,
    {
        let byte: u8 = bytes[index];
        if (0x30 <= byte && byte <= 0x39) || (0x41 <= byte && byte <= 0x5a) || (0x61 <= byte
            && byte <= 0x7a) || byte == 0x2d || byte == 0x5f || byte == 0x2e || byte == 0x7e {
            out.push(byte as char);
        } else {
            out.push('%');
            proof {
                assert(byte >> 4 == byte / 16) by (bit_vector);
                assert(byte & 0x0f == byte % 16) by (bit_vector);
            }
            out.push(hex(byte >> 4));
            out.push(hex(byte & 0x0f));
        }
        proof {
            let done = bytes@.take(index as int + 1);
            assert(done.drop_last() =~= bytes@.take(index as int));
            assert(out@ =~= old(out)@ + percent_encoded(done, plain));
        }
        index += 1;
    }
    proof {
        assert(bytes@.take(index as int) =~= bytes@);
    }
}

/// The position of the first occurrence of a character, or the length where there is none.
pub open spec fn first_index(text: Seq<char>, wanted: char) -> int
    decreases text.len(),
{
    if text.len() == 0 || text[0] == wanted {
        0
    } else {
        1 + first_index(text.skip(1), wanted)
    }
}

/// What the first occurrence of a character is: it is there, and nowhere before.
pub proof fn lemma_first_index(text: Seq<char>, wanted: char, index: int)
    requires
        0 <= index <= text.len(),
        forall|i: int| 0 <= i < index ==> text[i] != wanted,
        index < text.len() ==> text[index] == wanted,
    ensures
        first_index(text, wanted) == index,
    decreases text.len(),
{
    if index > 0 {
        assert(text.skip(1)[index - 1] == text[index] || index == text.len());
        assert forall|i: int| 0 <= i < index - 1 implies text.skip(1)[i] != wanted by {
            assert(text.skip(1)[i] == text[i + 1]);
        }
        lemma_first_index(text.skip(1), wanted, index - 1);
    }
}

/// The position of the first occurrence of a character, or the length where there is none.
pub fn index_of(text: &str, wanted: char) -> (index: usize)
    ensures
        index == first_index(text@, wanted),
        index <= text@.len(),
{
    let length = text.unicode_len();
    let mut index: usize = 0;
    while index < length
        invariant
            index <= length,
            length == text@.len(),
            forall|i: int| 0 <= i < index ==> text@[i] != wanted,
        decreases length - index,
    {
        if text.get_char(index) == wanted {
            proof {
                lemma_first_index(text@, wanted, index as int);
            }
            return index;
        }
        index += 1;
    }
    proof {
        lemma_first_index(text@, wanted, index as int);
    }
    index
}

/// A decimal digit.
pub open spec fn is_digit(c: char) -> bool {
    '0' <= c <= '9'
}

/// The number that decimal digits stand for.
pub open spec fn digits_value(digits: Seq<char>) -> nat
    decreases digits.len(),
{
    if digits.len() == 0 {
        0
    } else {
        digits_value(digits.drop_last()) * 10 + (digits.last() as nat - '0' as nat) as nat
    }
}

/// A text without a leading plus sign.
pub open spec fn without_plus(text: Seq<char>) -> Seq<char> {
    if text.len() > 0 && text[0] == '+' {
        text.skip(1)
    } else {
        text
    }
}

/// The 32-bit number that a text stands for: an optional plus sign and one or more digits.
pub open spec fn parsed_u32(text: Seq<char>) -> Option<u32> {
    let digits = without_plus(text);
    if digits.len() > 0 && (forall|i: int| 0 <= i < digits.len() ==> is_digit(digits[i]))
        && digits_value(digits) <= u32::MAX {
        Some(digits_value(digits) as u32)
    } else {
        None
    }
}

/// The 32-bit number that a text stands for: an optional plus sign and one or more digits.
pub fn parse_u32(text: &str) -> (number: Option<u32>)
    ensures
        number == parsed_u32(text@),
{
    let length = text.unicode_len();
    let start: usize = if length > 0 && text.get_char(0) == '+' {
        1
    } else {
        0
    };
    if start == length {
        return None;
    }
    let ghost digits = without_plus(text@);
    let mut value: u64 = 0;
    let mut index: usize = start;
    proof {
        assert(digits.take(0) =~= Seq::<char>::empty());
    }
    while index < length
        invariant
            start <= index <= length,
            length == text@.len(),
            digits == text@.skip(start as int),
            digits == without_plus(text@),
            forall|i: int| 0 <= i < index - start ==> is_digit(digits[i]),
            value == if digits_value(digits.take(index - start)) <= u32::MAX {
                digits_value(digits.take(index - start)) as int
            } else {
                u32::MAX + 1
            },
        decreases length - index,
    {
        let c = text.get_char(index);
        proof {
            assert(digits[index - start] == c);
        }
        if c < '0' || c > '9' {
            proof {
                assert(!is_digit(digits[index - start]));
            }
            return None;
        }
        proof {
            let done = digits.take(index - start + 1);
            assert(done.drop_last() =~= digits.take(index - start));
            assert(done.last() == c);
        }
        let next: u64 = value * 10 + (c as u32 - 0x30) as u64;
        value =
        if next > u32::MAX as u64 {
            u32::MAX as u64 + 1
        } else {
            next
        };
        index += 1;
    }
    proof {
        assert(digits.take(index - start) =~= digits);
    }
    if value > u32::MAX as u64 {
        None
    } else {
        Some(value as u32)
    }
}

/// The decimal digits of `value`, behind a minus sign where it is negative.
pub open spec fn signed_digits(value: int) -> Seq<char> {
    if value < 0 {
        "-"@ + decimal_digits((-value) as nat)
    } else {
        decimal_digits(value as nat)
    }
}

/// Appends the decimal digits of `value`, behind a minus sign where it is negative.
pub fn push_signed(out: &mut String, value: i32)
    ensures
        final(out)@ == old(out)@ + signed_digits(value as int),
{
    if value < 0 {
        out.append("-");
        push_decimal(out, (-(value as i64)) as u64);
        proof {
            assert(out@ =~= old(out)@ + signed_digits(value as int));
        }
    } else {
        push_decimal(out, value as u64);
    }
}

/// The decimal digits of `value` as a text of its own.
pub fn signed_decimal(value: i32) -> (text: String)
    ensures
        text@ == signed_digits(value as int),
{
    let mut text = String::new();
    push_signed(&mut text, value);
    proof {
        assert(text@ =~= signed_digits(value as int));
    }
    text
}

/// The text of a truth value.
pub open spec fn bool_text(value: bool) -> Seq<char> {
    if value {
        "true"@
    } else {
        "false"@
    }
}

/// The text of a truth value.
pub fn show_bool(value: bool) -> (text: &'static str)
    ensures
        text@ == bool_text(value),
{
    if value {
        "true"
    } else {
        "false"
    }
}

proof fn lemma_encoded_front(bytes: Seq<u8>, plain: spec_fn(u8) -> bool)
    requires
        bytes.len() > 0,
    ensures
        percent_encoded(bytes, plain) == percent_encoded_byte(bytes[0], plain) + percent_encoded(
            bytes.skip(1),
            plain,
        ),
    decreases bytes.len(),
{
    let rest = bytes.drop_last();
    let last = percent_encoded_byte(bytes.last(), plain);
    if rest.len() == 0 {
        assert(bytes.skip(1) =~= Seq::<u8>::empty());
        assert(percent_encoded(rest, plain) =~= Seq::<char>::empty());
        assert(percent_encoded(bytes, plain) =~= percent_encoded_byte(bytes[0], plain)
            + percent_encoded(bytes.skip(1), plain));
    } else {
        lemma_encoded_front(rest, plain);
        assert(bytes.skip(1).drop_last() =~= rest.skip(1));
        assert(percent_encoded(bytes, plain) =~= percent_encoded_byte(bytes[0], plain) + (
        percent_encoded(rest.skip(1), plain) + last));
    }
}

/// Percent-encoding that encodes the percent sign itself gives different bytes different texts.
pub proof fn law_percent_encoding_is_injective(
    a: Seq<u8>,
    b: Seq<u8>,
    plain: spec_fn(u8) -> bool,
)
    requires
        !plain(0x25),
        percent_encoded(a, plain) == percent_encoded(b, plain),
    ensures
        a == b,
    decreases a.len(),
{
    if a.len() > 0 {
        lemma_encoded_front(a, plain);
    }
    if b.len() > 0 {
        lemma_encoded_front(b, plain);
    }
    let text = percent_encoded(a, plain);
    if a.len() > 0 && b.len() > 0 {
        let front_a = percent_encoded_byte(a[0], plain);
        let front_b = percent_encoded_byte(b[0], plain);
        assert(text[0] == front_a[0] && text[0] == front_b[0]);
        if !plain(a[0]) && !plain(b[0]) {
            assert(text[1] == front_a[1] && text[1] == front_b[1]);
            assert(text[2] == front_a[2] && text[2] == front_b[2]);
        }
        assert(a[0] == b[0]);
        let rest_a = percent_encoded(a.skip(1), plain);
        let rest_b = percent_encoded(b.skip(1), plain);
        assert(rest_a =~= text.skip(front_a.len() as int));
        assert(rest_b =~= text.skip(front_b.len() as int));
        law_percent_encoding_is_injective(a.skip(1), b.skip(1), plain);
        assert(a =~= seq![a[0]] + a.skip(1));
        assert(b =~= seq![b[0]] + b.skip(1));
    } else if a.len() > 0 {
        assert(text[0] == percent_encoded_byte(a[0], plain)[0]);
        assert(text.len() == 0);
    } else if b.len() > 0 {
        assert(text[0] == percent_encoded_byte(b[0], plain)[0]);
        assert(text.len() == 0);
    } else {
        assert(a =~= b);
    }
}

/// Different texts have different encodings, as identity segments, as device names, and where only
/// unreserved characters stay.
pub proof fn law_encodings_are_distinct(a: Seq<char>, b: Seq<char>)
    ensures
        encoded_segment(a) == encoded_segment(b) ==> a == b,
        encoded_name(a) == encoded_name(b) ==> a == b,
        percent_encoded(vstd::utf8::encode_utf8(a), |byte: u8| unreserved(byte)) == percent_encoded(
            vstd::utf8::encode_utf8(b),
            |byte: u8| unreserved(byte),
        ) ==> a == b,
{
    vstd::utf8::encode_utf8_decode_utf8(a);
    vstd::utf8::encode_utf8_decode_utf8(b);
    let bytes_a = vstd::utf8::encode_utf8(a);
    let bytes_b = vstd::utf8::encode_utf8(b);
    if encoded_segment(a) == encoded_segment(b) {
        law_percent_encoding_is_injective(bytes_a, bytes_b, |byte: u8| segment_plain(byte));
    }
    if encoded_name(a) == encoded_name(b) {
        law_percent_encoding_is_injective(bytes_a, bytes_b, |byte: u8| name_plain(byte));
    }
    if percent_encoded(bytes_a, |byte: u8| unreserved(byte)) == percent_encoded(
        bytes_b,
        |byte: u8| unreserved(byte),
    ) {
        law_percent_encoding_is_injective(bytes_a, bytes_b, |byte: u8| unreserved(byte));
    }
}

/// What follows a common start is told apart as the whole is.
pub proof fn lemma_same_start(start: Seq<char>, a: Seq<char>, b: Seq<char>)
    requires
        start + a == start + b,
    ensures
        a == b,
{
    assert(a =~= (start + a).skip(start.len() as int));
    assert(b =~= (start + b).skip(start.len() as int));
}

/// Parts of the same length are told apart as the whole is.
pub proof fn lemma_same_parts(a: Seq<char>, b: Seq<char>, rest_a: Seq<char>, rest_b: Seq<char>)
    requires
        a.len() == b.len(),
        a + rest_a == b + rest_b,
    ensures
        a == b,
        rest_a == rest_b,
{
    assert(a =~= (a + rest_a).take(a.len() as int));
    assert(b =~= (b + rest_b).take(a.len() as int));
    lemma_same_start(a, rest_a, rest_b);
}

/// A fixed number of lower-case hexadecimal digits has that length, and tells numbers with no more
/// digits apart.
pub proof fn lemma_lower_hex_digits(a: nat, b: nat, width: nat)
    requires
        a < vstd::arithmetic::power::pow(16, width),
        b < vstd::arithmetic::power::pow(16, width),
    ensures
        lower_hex_digits(a, width).len() == width,
        lower_hex_digits(a, width) == lower_hex_digits(b, width) ==> a == b,
    decreases width,
{
    reveal(vstd::arithmetic::power::pow);
    if width > 0 {
        let rest = (width - 1) as nat;
        assert(a / 16 < vstd::arithmetic::power::pow(16, rest));
        assert(b / 16 < vstd::arithmetic::power::pow(16, rest));
        lemma_lower_hex_digits(a / 16, b / 16, rest);
        let digits_a = lower_hex_digits(a, width);
        let digits_b = lower_hex_digits(b, width);
        if digits_a == digits_b {
            assert(digits_a.drop_last() =~= lower_hex_digits(a / 16, rest));
            assert(digits_b.drop_last() =~= lower_hex_digits(b / 16, rest));
            assert(digits_a.last() == digits_b.last());
            assert(a % 16 == b % 16);
        }
    }
}

/// A fixed number of upper-case hexadecimal digits has that length, and tells numbers with no more
/// digits apart.
pub proof fn lemma_upper_hex_digits(a: nat, b: nat, width: nat)
    requires
        a < vstd::arithmetic::power::pow(16, width),
        b < vstd::arithmetic::power::pow(16, width),
    ensures
        upper_hex_digits(a, width).len() == width,
        upper_hex_digits(a, width) == upper_hex_digits(b, width) ==> a == b,
    decreases width,
{
    reveal(vstd::arithmetic::power::pow);
    if width > 0 {
        let rest = (width - 1) as nat;
        assert(a / 16 < vstd::arithmetic::power::pow(16, rest));
        assert(b / 16 < vstd::arithmetic::power::pow(16, rest));
        lemma_upper_hex_digits(a / 16, b / 16, rest);
        let digits_a = upper_hex_digits(a, width);
        let digits_b = upper_hex_digits(b, width);
        if digits_a == digits_b {
            assert(digits_a.drop_last() =~= upper_hex_digits(a / 16, rest));
            assert(digits_b.drop_last() =~= upper_hex_digits(b / 16, rest));
            assert(digits_a.last() == digits_b.last());
            assert(a % 16 == b % 16);
        }
    }
}

/// What the powers of sixteen are that hexadecimal digits of fixed numbers need.
pub proof fn lemma_powers_of_sixteen()
    ensures
        vstd::arithmetic::power::pow(16, 2) == 0x100,
        vstd::arithmetic::power::pow(16, 4) == 0x1_0000,
        vstd::arithmetic::power::pow(16, 8) == 0x1_0000_0000,
{
    reveal(vstd::arithmetic::power::pow);
    reveal_with_fuel(vstd::arithmetic::power::pow, 9);
}

/// The bytes that stay as they are in an identity segment: letters, digits and thirteen marks.
pub proof fn law_plain_bytes_of_a_segment(byte: u8)
    ensures
        segment_plain(byte) <==> {
            ||| 0x41 <= byte <= 0x5a || 0x61 <= byte <= 0x7a || 0x30 <= byte <= 0x39
            ||| byte == 0x22 || byte == 0x2d || byte == 0x2e || byte == 0x3c || byte == 0x3e
            ||| byte == 0x5c || byte == 0x5e || byte == 0x5f || byte == 0x60
            ||| byte == 0x7b || byte == 0x7c || byte == 0x7d || byte == 0x7e
        },
{
}

/// The bytes that stay as they are in a device name: printable ASCII but for five marks.
pub proof fn law_plain_bytes_of_a_name(byte: u8)
    ensures
        name_plain(byte) <==> {
            ||| byte == 0x21 || byte == 0x22 || byte == 0x24
            ||| 0x26 <= byte <= 0x2e
            ||| 0x30 <= byte <= 0x39
            ||| 0x3b <= byte <= 0x3e
            ||| 0x40 <= byte <= 0x7e
        },
{
}

/// A text of bytes that all stay as they are is its own encoding.
pub proof fn law_plain_text_is_not_changed(bytes: Seq<u8>, plain: spec_fn(u8) -> bool)
    requires
        forall|i: int| 0 <= i < bytes.len() ==> plain(#[trigger] bytes[i]),
    ensures
        percent_encoded(bytes, plain).len() == bytes.len(),
        forall|i: int|
            0 <= i < bytes.len() ==> (#[trigger] percent_encoded(bytes, plain)[i]) == bytes[i] as char,
    decreases bytes.len(),
{
    if bytes.len() > 0 {
        let rest = bytes.drop_last();
        assert forall|i: int| 0 <= i < rest.len() implies plain(#[trigger] rest[i]) by {
            assert(rest[i] == bytes[i]);
        }
        law_plain_text_is_not_changed(rest, plain);
        assert(percent_encoded(bytes, plain) =~= percent_encoded(rest, plain).push(
            bytes.last() as char,
        ));
        assert forall|i: int| 0 <= i < bytes.len() implies (#[trigger] percent_encoded(
            bytes,
            plain,
        )[i]) == bytes[i] as char by {
            if i < rest.len() {
                assert(rest[i] == bytes[i]);
                assert(percent_encoded(rest, plain)[i] == rest[i] as char);
            }
        }
    }
}

proof fn lemma_decimal_digits(value: nat)
    ensures
        decimal_digits(value).len() > 0,
        forall|i: int|
            0 <= i < decimal_digits(value).len() ==> is_digit(#[trigger] decimal_digits(value)[i]),
        digits_value(decimal_digits(value)) == value,
    decreases value,
{
    let digits = decimal_digits(value);
    if value < 10 {
        assert(digits.drop_last() =~= Seq::<char>::empty());
        assert(digits_value(digits.drop_last()) == 0);
        assert(digits.last() as nat - '0' as nat == value);
        assert(digits_value(digits) == value);
    } else {
        lemma_decimal_digits(value / 10);
        assert(digits.drop_last() =~= decimal_digits(value / 10));
        assert(digits_value(digits) == (value / 10) * 10 + value % 10);
    }
}

/// A number that is written in decimal digits is read back.
pub proof fn law_written_number_is_read_back(value: u32)
    ensures
        parsed_u32(decimal_digits(value as nat)) == Some(value),
{
    lemma_decimal_digits(value as nat);
    assert(is_digit(decimal_digits(value as nat)[0]));
}

proof fn lemma_trimmed_start(text: Seq<char>)
    ensures
        trimmed_start(text).len() <= text.len(),
        trimmed_start(text) == text.skip(text.len() - trimmed_start(text).len()),
        forall|i: int|
            0 <= i < text.len() - trimmed_start(text).len() ==> is_white_space(#[trigger] text[i]),
        trimmed_start(text).len() > 0 ==> !is_white_space(trimmed_start(text)[0]),
    decreases text.len(),
{
    if text.len() > 0 && is_white_space(text[0]) {
        let rest = text.skip(1);
        lemma_trimmed_start(rest);
        assert(trimmed_start(text) =~= text.skip(text.len() - trimmed_start(text).len()));
        assert forall|i: int| 0 <= i < text.len() - trimmed_start(text).len() implies is_white_space(
            #[trigger] text[i],
        ) by {
            if i > 0 {
                assert(rest[i - 1] == text[i]);
            }
        }
    } else {
        assert(text =~= text.skip(0));
    }
}

proof fn lemma_trimmed_end(text: Seq<char>)
    ensures
        trimmed_end(text).len() <= text.len(),
        trimmed_end(text) == text.take(trimmed_end(text).len() as int),
        forall|i: int|
            trimmed_end(text).len() <= i < text.len() ==> is_white_space(#[trigger] text[i]),
        trimmed_end(text).len() > 0 ==> !is_white_space(trimmed_end(text).last()),
    decreases text.len(),
{
    if text.len() > 0 && is_white_space(text.last()) {
        let rest = text.drop_last();
        lemma_trimmed_end(rest);
        assert(trimmed_end(text) =~= text.take(trimmed_end(text).len() as int));
        assert forall|i: int| trimmed_end(text).len() <= i < text.len() implies is_white_space(
            #[trigger] text[i],
        ) by {
            if i < rest.len() {
                assert(rest[i] == text[i]);
            }
        }
    } else {
        assert(text =~= text.take(text.len() as int));
    }
}

/// A text that is only white space is no text; of another one, what lies between its first and its
/// last character that is not white space counts.
pub proof fn law_blank_text_is_no_text(text: Seq<char>)
    ensures
        spec_non_empty(Some(text)) is None <==> forall|i: int|
            0 <= i < text.len() ==> is_white_space(#[trigger] text[i]),
        spec_non_empty(Some(text)) matches Some(kept) ==> {
            &&& kept.len() > 0
            &&& !is_white_space(kept[0])
            &&& !is_white_space(kept.last())
            &&& exists|start: int, end: int|
                0 <= start <= end <= text.len() && kept == #[trigger] text.subrange(start, end)
        },
        spec_non_empty(None) is None,
{
    lemma_trimmed_start(text);
    let front = trimmed_start(text);
    lemma_trimmed_end(front);
    let kept = trimmed(text);
    let start = text.len() - front.len();
    assert(kept =~= text.subrange(start, start + kept.len()));
    if kept.len() > 0 {
        assert(front[0] == kept[0]);
        assert(!is_white_space(text[start]));
    } else {
        assert forall|i: int| 0 <= i < text.len() implies is_white_space(#[trigger] text[i]) by {
            if i >= start {
                assert(front[i - start] == text[i]);
            }
        }
    }
}

/// The digits of bases ten and sixteen.
pub proof fn law_digits(value: int)
    ensures
        0 <= value < 10 ==> lower_digit(value) as int == 0x30 + value && upper_digit(value) as int
            == 0x30 + value,
        10 <= value < 16 ==> lower_digit(value) as int == 0x61 + value - 10 && upper_digit(
            value,
        ) as int == 0x41 + value - 10,
{
}

/// A byte has two hexadecimal digits, and those of bytes stand in order.
pub proof fn law_bytes_have_two_digits_each(bytes: Seq<u8>, i: int)
    requires
        0 <= i < bytes.len(),
    ensures
        byte_hex_digits(bytes).len() == 2 * bytes.len(),
        byte_hex_digits(bytes)[2 * i] == lower_digit(bytes[i] as int / 16),
        byte_hex_digits(bytes)[2 * i + 1] == lower_digit(bytes[i] as int % 16),
    decreases bytes.len(),
{
    let front = bytes.drop_last();
    let last = bytes.last() as nat;
    reveal_with_fuel(lower_hex_digits, 3);
    assert(lower_hex_digits(last, 2) =~= seq![
        lower_digit((last / 16 % 16) as int),
        lower_digit((last % 16) as int),
    ]);
    assert(last / 16 % 16 == last / 16);
    if front.len() > 0 {
        law_bytes_have_two_digits_each(
            front,
            if i < front.len() {
                i
            } else {
                0
            },
        );
    } else {
        assert(byte_hex_digits(front) =~= Seq::<char>::empty());
    }
    if i < front.len() {
        assert(front[i] == bytes[i]);
    }
}

/// A fixed number of hexadecimal digits are those of the number, the last one for the units.
pub proof fn law_last_digit_stands_for_the_units(value: nat, width: nat)
    requires
        width > 0,
    ensures
        upper_hex_digits(value, width).len() == width,
        lower_hex_digits(value, width).len() == width,
        upper_hex_digits(value, width).last() == upper_digit((value % 16) as int),
        lower_hex_digits(value, width).last() == lower_digit((value % 16) as int),
        upper_hex_digits(value, width).drop_last() == upper_hex_digits(
            value / 16,
            (width - 1) as nat,
        ),
        lower_hex_digits(value, width).drop_last() == lower_hex_digits(
            value / 16,
            (width - 1) as nat,
        ),
    decreases width,
{
    if width > 1 {
        law_last_digit_stands_for_the_units(value / 16, (width - 1) as nat);
    }
    assert(upper_hex_digits(value, width).drop_last() =~= upper_hex_digits(
        value / 16,
        (width - 1) as nat,
    ));
    assert(lower_hex_digits(value, width).drop_last() =~= lower_hex_digits(
        value / 16,
        (width - 1) as nat,
    ));
}

/// A negative number is written as its counterpart with a sign before it, any other one without.
pub proof fn law_negative_numbers_have_a_sign(value: int)
    ensures
        value < 0 ==> signed_digits(value).first() == '-' && signed_digits(value).skip(1)
            == decimal_digits((0 - value) as nat),
        value >= 0 ==> signed_digits(value) == decimal_digits(value as nat),
{
    reveal_strlit("-");
    if value < 0 {
        assert(signed_digits(value).skip(1) =~= decimal_digits((0 - value) as nat));
    }
}

} // verus!
