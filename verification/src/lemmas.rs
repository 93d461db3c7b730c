//! What holds of rows and clients whatever their contents.

use crate::phant::{Phant, PhantView};
use crate::query::{encoded_bytes, joined, pair_text, passes_unescaped, percent_encoded, query_text};
use crate::row::{distinct_keys, has_key, index_of_key, lemma_put, lemma_to_map, put, put_all, to_map, Pair};
use vstd::prelude::*;
use vstd::utf8::{encode_utf8, is_ascii_chars, is_ascii_chars_encode_utf8};

verus! {

/// Text of ASCII characters that all pass unescaped.
pub open spec fn is_plain(text: Seq<char>) -> bool {
    forall|i: int|
        0 <= i < text.len() ==> '\0' <= #[trigger] text[i] <= '\u{7f}' && passes_unescaped(
            text[i] as u8,
        )
}

/// Bytes that all pass unescaped come out as the characters they are.
proof fn lemma_plain_bytes(bytes: Seq<u8>)
    requires
        forall|i: int| 0 <= i < bytes.len() ==> passes_unescaped(#[trigger] bytes[i]),
    ensures
        encoded_bytes(bytes).len() == bytes.len(),
        forall|i: int| 0 <= i < bytes.len() ==> #[trigger] encoded_bytes(bytes)[i] == bytes[i] as char,
    decreases bytes.len(),
{
    if bytes.len() > 0 {
        let front = bytes.drop_last();
        assert forall|i: int| 0 <= i < front.len() implies passes_unescaped(#[trigger] front[i]) by {
            assert(front[i] == bytes[i]);
        }
        lemma_plain_bytes(front);
    }
}

/// Percent-encoding changes nothing in a text that needs no escaping:
/// letters, digits, `-`, `_`, `.`, `~`, `=` and `&` pass through as they
/// are.
pub proof fn lemma_plain_text_is_unchanged(text: Seq<char>)
    requires
        is_plain(text),
    ensures
        percent_encoded(text) == text,
{
    assert(is_ascii_chars(text));
    is_ascii_chars_encode_utf8(text);
    let bytes = encode_utf8(text);
    assert forall|i: int| 0 <= i < bytes.len() implies passes_unescaped(#[trigger] bytes[i]) by {
        assert(bytes[i] == text[i] as u8);
    }
    lemma_plain_bytes(bytes);
    assert forall|i: int| 0 <= i < text.len() implies percent_encoded(text)[i] == text[i] by {
        assert(bytes[i] == text[i] as u8);
        assert(encoded_bytes(bytes)[i] == bytes[i] as char);
    }
    assert(percent_encoded(text) =~= text);
}

/// The UTF-8 bytes of two texts written one after the other are the bytes
/// of the first followed by the bytes of the second.
proof fn lemma_encode_utf8_concat(first: Seq<char>, second: Seq<char>)
    ensures
        encode_utf8(first + second) == encode_utf8(first) + encode_utf8(second),
    decreases first.len(),
{
    if first.len() == 0 {
        assert(first + second =~= second);
        assert(encode_utf8(first) + encode_utf8(second) =~= encode_utf8(second));
    } else {
        assert((first + second).drop_first() =~= first.drop_first() + second);
        assert((first + second)[0] == first[0]);
        lemma_encode_utf8_concat(first.drop_first(), second);
        assert(encode_utf8(first + second) =~= encode_utf8(first) + encode_utf8(second));
    }
}

/// Bytes are encoded one by one, so the encoding of two runs of bytes is
/// the encoding of the first followed by that of the second.
proof fn lemma_encoded_bytes_concat(first: Seq<u8>, second: Seq<u8>)
    ensures
        encoded_bytes(first + second) == encoded_bytes(first) + encoded_bytes(second),
    decreases second.len(),
{
    if second.len() == 0 {
        assert(first + second =~= first);
        assert(encoded_bytes(first) + encoded_bytes(second) =~= encoded_bytes(first));
    } else {
        assert((first + second).drop_last() =~= first + second.drop_last());
        assert((first + second).last() == second.last());
        lemma_encoded_bytes_concat(first, second.drop_last());
        assert(encoded_bytes(first + second) =~= encoded_bytes(first) + encoded_bytes(second));
    }
}

/// Percent-encoding goes through a text piece by piece: the encoding of two
/// texts written one after the other is their encodings one after the other.
pub proof fn lemma_percent_encoded_concat(first: Seq<char>, second: Seq<char>)
    ensures
        percent_encoded(first + second) == percent_encoded(first) + percent_encoded(second),
{
    lemma_encode_utf8_concat(first, second);
    lemma_encoded_bytes_concat(encode_utf8(first), encode_utf8(second));
}

/// One column with its name and its value encoded each for itself, and a
/// plain `=` between them.
pub open spec fn encoded_pair(pair: Pair) -> Seq<char> {
    percent_encoded(pair.0) + "="@ + percent_encoded(pair.1)
}

/// The encoding of one column as `name=value` is the encoded name, a plain
/// `=`, and the encoded value.
pub proof fn lemma_pair_is_encoded_by_part(pair: Pair)
    ensures
        percent_encoded(pair_text(pair)) == encoded_pair(pair),
{
    reveal_strlit("=");
    let sign = "="@;
    assert(sign =~= seq!['=']);
    assert(is_plain(sign));
    lemma_plain_text_is_unchanged(sign);
    lemma_percent_encoded_concat(pair.0 + sign, pair.1);
    lemma_percent_encoded_concat(pair.0, sign);
}

/// The query string of a row is what comes of encoding each name and each
/// value for itself and joining the columns with plain `=` and `&`: the
/// separators pass, and every other byte that is no letter, digit, `-`, `_`,
/// `.` or `~` is escaped.
pub proof fn lemma_query_is_encoded_by_column(row: Seq<Pair>)
    ensures
        percent_encoded(query_text(row)) == joined(row.map_values(|p: Pair| encoded_pair(p)), "&"@),
    decreases row.len(),
{
    let plain = row.map_values(|p: Pair| pair_text(p));
    let encoded = row.map_values(|p: Pair| encoded_pair(p));
    if row.len() == 0 {
        assert(encode_utf8(Seq::<char>::empty()) =~= Seq::<u8>::empty());
    } else if row.len() == 1 {
        lemma_pair_is_encoded_by_part(row[0]);
    } else {
        reveal_strlit("&");
        let sign = "&"@;
        assert(sign =~= seq!['&']);
        assert(is_plain(sign));
        lemma_plain_text_is_unchanged(sign);
        let front = row.drop_last();
        assert(plain.drop_last() =~= front.map_values(|p: Pair| pair_text(p)));
        assert(encoded.drop_last() =~= front.map_values(|p: Pair| encoded_pair(p)));
        lemma_query_is_encoded_by_column(front);
        lemma_pair_is_encoded_by_part(row.last());
        lemma_percent_encoded_concat(joined(plain.drop_last(), sign) + sign, plain.last());
        lemma_percent_encoded_concat(joined(plain.drop_last(), sign), sign);
    }
}

/// The query string of a row with one column is the encoded name, a plain
/// `=`, and the encoded value.
pub proof fn lemma_query_of_one_column(name: Seq<char>, value: Seq<char>)
    ensures
        percent_encoded(query_text(seq![(name, value)])) == percent_encoded(name) + "="@
            + percent_encoded(value),
{
    let row = seq![(name, value)];
    lemma_query_is_encoded_by_column(row);
    assert(row.map_values(|p: Pair| encoded_pair(p))[0] == encoded_pair(row[0]));
}

/// Setting columns one after the other keeps the names of a row distinct.
pub proof fn lemma_put_all_keeps_names_distinct(row: Seq<Pair>, adds: Seq<Pair>)
    requires
        distinct_keys(row),
    ensures
        distinct_keys(put_all(row, adds)),
    decreases adds.len(),
{
    if adds.len() > 0 {
        lemma_put_all_keeps_names_distinct(row, adds.drop_last());
        lemma_put(put_all(row, adds.drop_last()), adds.last().0, adds.last().1);
    }
}

/// Columns set on an empty row under names that all differ give a row that
/// holds exactly these columns, in the order in which they were set: its
/// length, as a sequence and as a mapping, is the number of names.
pub proof fn lemma_distinct_adds_are_counted(adds: Seq<Pair>)
    requires
        distinct_keys(adds),
    ensures
        put_all(Seq::empty(), adds) == adds,
        put_all(Seq::empty(), adds).len() == adds.len(),
        to_map(put_all(Seq::empty(), adds)).len() == adds.len(),
    decreases adds.len(),
{
    if adds.len() > 0 {
        let front = adds.drop_last();
        let last = adds.last();
        assert(forall|i: int| 0 <= i < front.len() ==> front[i] == adds[i]);
        lemma_distinct_adds_are_counted(front);
        assert(!has_key(front, last.0)) by {
            if has_key(front, last.0) {
                let i: int = index_of_key(front, last.0);
                assert(adds[i].0 == adds[adds.len() - 1].0);
            }
        }
        assert(put(front, last.0, last.1) =~= adds);
    } else {
        assert(adds =~= Seq::<Pair>::empty());
    }
    lemma_to_map(adds);
}

/// Columns set under names that all differ, and of which the row has none
/// yet, are appended in the order in which they were set: the row grows by
/// their number.
pub proof fn lemma_new_columns_are_appended(row: Seq<Pair>, adds: Seq<Pair>)
    requires
        distinct_keys(row),
        distinct_keys(adds),
        forall|i: int| 0 <= i < adds.len() ==> !has_key(row, (#[trigger] adds[i]).0),
    ensures
        put_all(row, adds) == row + adds,
        put_all(row, adds).len() == row.len() + adds.len(),
        to_map(put_all(row, adds)).len() == row.len() + adds.len(),
    decreases adds.len(),
{
    if adds.len() > 0 {
        let front = adds.drop_last();
        let last = adds.last();
        assert(forall|i: int| 0 <= i < front.len() ==> front[i] == adds[i]);
        lemma_new_columns_are_appended(row, front);
        let so_far = row + front;
        assert(!has_key(so_far, last.0)) by {
            if has_key(so_far, last.0) {
                let i: int = index_of_key(so_far, last.0);
                if i < row.len() {
                    assert(so_far[i] == row[i]);
                    assert(has_key(row, adds[adds.len() - 1].0));
                } else {
                    assert(so_far[i] == adds[i - row.len()]);
                    assert(adds[i - row.len()].0 == adds[adds.len() - 1].0);
                }
            }
        }
        assert(put(so_far, last.0, last.1) =~= row + adds);
    } else {
        assert(row + adds =~= row);
    }
    lemma_put_all_keeps_names_distinct(row, adds);
    lemma_to_map(row + adds);
}

/// The address of a client whose row needs no escaping shows the columns
/// as they are: `name=value`, joined by `&`.
pub proof fn lemma_url_of_plain_row(client: PhantView)
    requires
        is_plain(query_text(client.row)),
    ensures
        client.query() == query_text(client.row),
        client.url() == client.hostname + "/input/"@ + client.public_key + "?private_key="@
            + client.private_key + "&"@ + query_text(client.row),
{
    lemma_plain_text_is_unchanged(query_text(client.row));
}

/// Setting a column twice is an overwrite: the second value is the one
/// that the row holds, and the row is as long as after the first.
pub proof fn lemma_second_add_overwrites(row: Seq<Pair>, key: Seq<char>, first: Seq<char>, second: Seq<char>)
    requires
        distinct_keys(row),
    ensures
        put(put(row, key, first), key, second).len() == put(row, key, first).len(),
        to_map(put(put(row, key, first), key, second)).len() == to_map(put(row, key, first)).len(),
        to_map(put(put(row, key, first), key, second)).contains_key(key),
        to_map(put(put(row, key, first), key, second))[key] == second,
{
    let once = put(row, key, first);
    let twice = put(once, key, second);
    lemma_put(row, key, first);
    lemma_put(once, key, second);
    lemma_to_map(once);
    lemma_to_map(twice);
    assert(to_map(once).contains_key(key));
    assert(has_key(once, key));
}

/// A copy of the row is a value of its own: whatever is set in it
/// afterwards, the client still holds the row as it was copied, and hands out
/// the same row again.
pub proof fn lemma_row_copy_is_independent(
    client: PhantView,
    copy: Seq<Pair>,
    key: Seq<char>,
    value: Seq<char>,
    again: Seq<Pair>,
)
    requires
        distinct_keys(client.row),
        copy == client.row,
        again == client.row,
    ensures
        again == copy,
        again.len() == copy.len(),
        to_map(again) == client.row_map(),
        !has_key(copy, key) ==> put(copy, key, value).len() == again.len() + 1,
{
    lemma_put(copy, key, value);
}

/// Clearing leaves no column, and changes nothing in a client whose row is
/// empty already.
pub proof fn lemma_clear_empties(client: PhantView)
    ensures
        client.cleared().row.len() == 0,
        client.cleared().row_map() == Map::<Seq<char>, Seq<char>>::empty(),
        client.row.len() == 0 ==> client.cleared() == client,
        client.cleared().cleared() == client.cleared(),
{
    if client.row.len() == 0 {
        assert(client.row =~= Seq::<Pair>::empty());
    }
}

/// The address that submits the row is a function of the client's state:
/// two clients in the same state have the same address, so asking twice
/// with nothing set or cleared in between gives the same text.
pub proof fn lemma_url_is_repeatable(first: Phant, second: Phant)
    requires
        first@ == second@,
    ensures
        first@.url() == second@.url(),
        first@.row.len() == second@.row.len(),
{
}

} // verus!
