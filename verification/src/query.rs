//! Text building: joining, the query string of a row, and its
//! percent-encoding.

use crate::row::{Pair, Row};
use vstd::prelude::*;
use vstd::string::*;
use vstd::utf8::encode_utf8;

verus! {

/// The views of a vector of strings.
pub open spec fn texts(items: Seq<String>) -> Seq<Seq<char>> {
    items.map_values(|s: String| s@)
}

/// `items` written one after the other with `sep` between neighbours.
pub open spec fn joined(items: Seq<Seq<char>>, sep: Seq<char>) -> Seq<char>
    decreases items.len(),
{
    if items.len() == 0 {
        Seq::empty()
    } else if items.len() == 1 {
        items[0]
    } else {
        joined(items.drop_last(), sep) + sep + items.last()
    }
}

/// One column as `name=value`.
pub open spec fn pair_text(pair: Pair) -> Seq<char> {
    pair.0 + "="@ + pair.1
}

/// The columns as `name=value`, joined by `&`, before any escaping.
pub open spec fn query_text(pairs: Seq<Pair>) -> Seq<char> {
    joined(pairs.map_values(|p: Pair| pair_text(p)), "&"@)
}

/// The bytes that pass as they are: ASCII letters and digits, the marks
/// `-` `_` `.` `~`, and the two separators `=` and `&`.
pub open spec fn passes_unescaped(byte: u8) -> bool {
    (0x30 <= byte && byte <= 0x39) || (0x41 <= byte && byte <= 0x5A) || (0x61 <= byte && byte
        <= 0x7A) || byte == 0x2D || byte == 0x5F || byte == 0x2E || byte == 0x7E || byte == 0x3D
        || byte == 0x26
}

/// The upper-case hexadecimal digit for a value below sixteen.
pub open spec fn hex_digit(value: u8) -> char {
    if value < 10 {
        ((0x30 + value) as u8) as char
    } else {
        ((0x37 + value) as u8) as char
    }
}

/// A byte written as `%` and its two upper-case hexadecimal digits.
pub open spec fn escaped_byte(byte: u8) -> Seq<char> {
    seq!['%', hex_digit(byte / 16), hex_digit(byte % 16)]
}

/// One byte as it stands in the encoding: itself where it passes, `%XX`
/// where it does not.
pub open spec fn encoded_byte(byte: u8) -> Seq<char> {
    if passes_unescaped(byte) {
        seq![byte as char]
    } else {
        escaped_byte(byte)
    }
}

/// Each byte encoded in turn.
pub open spec fn encoded_bytes(bytes: Seq<u8>) -> Seq<char>
    decreases bytes.len(),
{
    if bytes.len() == 0 {
        Seq::empty()
    } else {
        encoded_bytes(bytes.drop_last()) + encoded_byte(bytes.last())
    }
}

/// The percent-encoding of a text: its UTF-8 bytes, each encoded in turn.
pub open spec fn percent_encoded(text: Seq<char>) -> Seq<char> {
    encoded_bytes(encode_utf8(text))
}

/// Escapes one byte by `url::percent_encoding::percent_encode_byte`.
/// Trusted: the result is `%` and the two upper-case hexadecimal digits of
/// the byte, whatever the byte.
#[verifier::external_body]
fn escape_byte(byte: u8) -> (escaped: &'static str)
    ensures
        escaped@ == escaped_byte(byte),
{
    url::percent_encoding::percent_encode_byte(byte)
}

/// Appends one character with `String::push` of std. Trusted: the string
/// grows by that character at its end.
#[verifier::external_body]
fn push_char(text: &mut String, c: char)
    ensures
        final(text)@ == old(text)@.push(c),
{
    text.push(c)
}

/// Whether a byte passes as it is.
pub fn is_unescaped(byte: u8) -> (passes: bool)
    ensures
        passes == passes_unescaped(byte),
{
    (0x30 <= byte && byte <= 0x39) || (0x41 <= byte && byte <= 0x5A) || (0x61 <= byte && byte
        <= 0x7A) || byte == 0x2D || byte == 0x5F || byte == 0x2E || byte == 0x7E || byte == 0x3D
        || byte == 0x26
}

/// Percent-encodes a text: each byte of its UTF-8 form that is no ASCII
/// letter or digit, none of `-` `_` `.` `~` and neither `=` nor `&` is
/// written as `%XX`; the others pass as they are.
pub fn percent_encode(text: &str) -> (encoded: String)
    ensures
        encoded@ == percent_encoded(text@),
{
    let bytes = text.as_bytes();
    let mut encoded = String::new();
    let mut i: usize = 0;
    while i < bytes.len()
        invariant
            i <= bytes@.len(),
            encoded@ == encoded_bytes(bytes@.take(i as int)),
        decreases bytes@.len() - i,
    {
        let byte: u8 = bytes[i];
        if is_unescaped(byte) {
            push_char(&mut encoded, byte as char);
        } else {
            encoded.append(escape_byte(byte));
        }
        proof {
            let now = bytes@.take(i + 1);
            assert(now.drop_last() =~= bytes@.take(i as int));
            assert(now.last() == byte);
            assert(seq![byte as char] =~= Seq::<char>::empty().push(byte as char));
        }
        i += 1;
    }
    assert(bytes@.take(bytes@.len() as int) =~= bytes@);
    encoded
}

/// Joins `items` with `sep` between neighbours.
pub fn join(items: &Vec<String>, sep: &str) -> (text: String)
    ensures
        text@ == joined(texts(items@), sep@),
{
    let ghost all = texts(items@);
    let mut text = String::new();
    let mut i: usize = 0;
    while i < items.len()
        invariant
            i <= items@.len(),
            all == texts(items@),
            text@ == joined(all.take(i as int), sep@),
        decreases items@.len() - i,
    {
        let ghost before = text@;
        if i > 0 {
            text.append(sep);
        }
        text.append(items[i].as_str());
        proof {
            let now = all.take(i + 1);
            assert(now.drop_last() =~= all.take(i as int));
            assert(now.last() == items@[i as int]@);
            if i == 0 {
                assert(text@ =~= now[0]);
            }
        }
        i += 1;
    }
    assert(all.take(items@.len() as int) =~= all);
    text
}

/// The row as `name=value` columns joined by `&`, in the row's order, then
/// percent-encoded as a whole.
pub fn data_query_string(row: &Row) -> (query: String)
    ensures
        query@ == percent_encoded(query_text(row.pairs())),
{
    let ghost wanted = row.pairs().map_values(|p: Pair| pair_text(p));
    let mut columns: Vec<String> = Vec::new();
    let n: usize = row.len();
    let mut i: usize = 0;
    while i < n
        invariant
            i <= n,
            n == row.pairs().len(),
            columns@.len() == i,
            wanted == row.pairs().map_values(|p: Pair| pair_text(p)),
            texts(columns@) == wanted.take(i as int),
        decreases n - i,
    {
        let (name, value) = row.entry(i);
        let mut column = name.to_owned();
        column.append("=");
        column.append(value);
        let ghost before = texts(columns@);
        columns.push(column);
        assert(texts(columns@) =~= wanted.take(i + 1)) by {
            assert(texts(columns@).len() == i + 1);
            assert forall|j: int| 0 <= j < i + 1 implies texts(columns@)[j] == wanted.take(i + 1)[j] by {
                if j < i {
                    assert(texts(columns@)[j] == before[j]);
                }
            }
        }
        i += 1;
    }
    assert(wanted.take(n as int) =~= wanted);
    let plain = join(&columns, "&");
    percent_encode(plain.as_str())
}

} // verus!
