//! The binary form of the errors: the place of the variant in the
//! declaration as one byte, then the fields in their order. A length or an
//! index takes eight bytes, least significant first; a text is the number
//! of its UTF-8 bytes and then the bytes; a list is the number of its
//! entries and then the entries. Variants are told apart by their place, so
//! a new variant can only be added at the end of a declaration.
//!
//! Each type has an `encoding` and a `parse` that reads one value from the
//! front of a byte sequence; `parse` undoes `encoding`, whatever follows.

pub mod http;
pub mod io;
pub mod ssl;
pub mod unified;





use vstd::bytes::{
    lemma_auto_spec_u64_to_from_le_bytes, spec_u64_from_le_bytes, spec_u64_to_le_bytes,
    u64_from_le_bytes, u64_to_le_bytes,
};
use vstd::prelude::*;
use vstd::slice::{slice_subrange, slice_to_vec};
use vstd::utf8::{
    decode_utf8, encode_utf8, encode_utf8_decode_utf8, encode_utf8_valid_utf8, valid_utf8,
};

verus! {

/// The eight bytes of a number, least significant first.
pub open spec fn number_encoding(n: u64) -> Seq<u8> {
    spec_u64_to_le_bytes(n)
}

/// Reads a number from the front of `bytes`: the number and the count of
/// bytes read, or `None` where fewer than eight bytes are there.
pub open spec fn parse_number(bytes: Seq<u8>) -> Option<(u64, int)> {
    if bytes.len() < 8 {
        None
    } else {
        Some((spec_u64_from_le_bytes(bytes.subrange(0, 8)), 8))
    }
}

/// A number is read back from its encoding, whatever follows.
pub proof fn parse_number_of_encoding(n: u64, rest: Seq<u8>)
    ensures
        number_encoding(n).len() == 8,
        parse_number(number_encoding(n) + rest) == Some((n, 8int)),
{
    lemma_auto_spec_u64_to_from_le_bytes();
    assert((number_encoding(n) + rest).subrange(0, 8) =~= number_encoding(n));
}

/// The binary form of a text: the number of its UTF-8 bytes, then the bytes.
pub open spec fn text_encoding(text: Seq<char>) -> Seq<u8> {
    number_encoding(encode_utf8(text).len() as u64) + encode_utf8(text)
}

/// Whether the text is short enough for its length to be written down.
pub open spec fn text_fits(text: Seq<char>) -> bool {
    encode_utf8(text).len() <= u64::MAX
}

/// Reads a text from the front of `bytes`: the text and the count of bytes
/// read, or `None` where the length is cut off, fewer bytes follow than it
/// announces, or those bytes are not UTF-8.
pub open spec fn parse_text(bytes: Seq<u8>) -> Option<(Seq<char>, int)> {
    match parse_number(bytes) {
        Some((length, _)) => {
            if bytes.len() - 8 < length {
                None
            } else if !valid_utf8(bytes.subrange(8, 8 + length)) {
                None
            } else {
                Some((decode_utf8(bytes.subrange(8, 8 + length)), 8 + length))
            }
        },
        None => None,
    }
}

/// A text is read back from its encoding, whatever follows.
pub proof fn parse_text_of_encoding(text: Seq<char>, rest: Seq<u8>)
    requires
        text_fits(text),
    ensures
        parse_text(text_encoding(text) + rest) == Some((text, text_encoding(text).len() as int)),
{
    let body = encode_utf8(text);
    let all = text_encoding(text) + rest;
    parse_number_of_encoding(body.len() as u64, body + rest);
    assert(all =~= number_encoding(body.len() as u64) + (body + rest));
    assert(all.subrange(8, 8 + body.len() as int) =~= body);
    encode_utf8_valid_utf8(text);
    encode_utf8_decode_utf8(text);
}

/// What follows the first byte of a value with one field: the field, then
/// whatever came after the value.
pub proof fn after_tag(tag: u8, field: Seq<u8>, rest: Seq<u8>)
    ensures
        (seq![tag] + field + rest)[0] == tag,
        (seq![tag] + field + rest).skip(1) == field + rest,
        (seq![tag] + field).len() == 1 + field.len(),
        seq![tag] + field == seq![tag] <==> field.len() == 0,
{
    assert((seq![tag] + field + rest).skip(1) =~= field + rest);
    if field.len() == 0 {
        assert(seq![tag] + field =~= seq![tag]);
    }
}

/// What follows the first byte of a value with two fields: the first field,
/// then the second and whatever came after the value.
pub proof fn after_tag_and_field(tag: u8, first: Seq<u8>, second: Seq<u8>, rest: Seq<u8>)
    ensures
        (seq![tag] + first + second + rest)[0] == tag,
        (seq![tag] + first + second + rest).skip(1) == first + (second + rest),
        (seq![tag] + first + second + rest).skip(1).skip(first.len() as int) == second + rest,
        (seq![tag] + first + second).len() == 1 + first.len() + second.len(),
{
    let tail = (seq![tag] + first + second + rest).skip(1);
    assert(tail =~= first + (second + rest));
    assert(tail.skip(first.len() as int) =~= second + rest);
}

/// Appends the encoding of a number.
pub fn encode_number(n: u64, out: &mut Vec<u8>)
    ensures
        final(out)@ == old(out)@ + number_encoding(n),
{
    let mut bytes = u64_to_le_bytes(n);
    out.append(&mut bytes);
}

/// Reads a number from the front of `bytes`.
pub fn decode_number(bytes: &[u8]) -> (r: Option<(u64, usize)>)
    ensures
        r == match parse_number(bytes@) {
            Some((n, read)) => Some((n, read as usize)),
            None => None,
        },
        r matches Some((_, read)) ==> read <= bytes.len(),
{
    if bytes.len() < 8 {
        None
    } else {
        Some((u64_from_le_bytes(slice_subrange(bytes, 0, 8)), 8))
    }
}

/// Appends the encoding of a text.
pub fn encode_text(text: &str, out: &mut Vec<u8>)
    ensures
        final(out)@ == old(out)@ + text_encoding(text@),
        text_fits(text@),
{
    let bytes = text.as_bytes();
    encode_number(bytes.len() as u64, out);
    let mut body = text.as_bytes_vec();
    out.append(&mut body);
    assert(final(out)@ =~= old(out)@ + text_encoding(text@));
}

/// Reads a text from the front of `bytes`.
pub fn decode_text(bytes: &[u8]) -> (r: Option<(String, usize)>)
    ensures
        match r {
            Some((text, read)) => parse_text(bytes@) == Some((text@, read as int)) && read
                <= bytes.len(),
            None => parse_text(bytes@) is None,
        },
{
    match decode_number(bytes) {
        Some((length, _)) => {
            if ((bytes.len() - 8) as u64) < length {
                None
            } else {
                let end = 8 + length as usize;
                let body = slice_to_vec(slice_subrange(bytes, 8, end));
                match crate::text::text_from_utf8(body) {
                    Some(text) => {
                        proof {
                            encode_utf8_decode_utf8(text@);
                        }
                        Some((text, end))
                    },
                    None => None,
                }
            }
        },
        None => None,
    }
}

/// The binary form of an index: that of the number.
pub open spec fn index_encoding(index: usize) -> Seq<u8> {
    number_encoding(index as u64)
}

/// Reads an index from the front of `bytes`: a number that an index of this
/// machine can hold.
pub open spec fn parse_index(bytes: Seq<u8>) -> Option<(usize, int)> {
    match parse_number(bytes) {
        Some((n, read)) => if n <= usize::MAX {
            Some((n as usize, read))
        } else {
            None
        },
        None => None,
    }
}

/// An index is read back from its encoding, whatever follows.
pub proof fn parse_index_of_encoding(index: usize, rest: Seq<u8>)
    ensures
        parse_index(index_encoding(index) + rest) == Some((index, 8int)),
        index_encoding(index).len() == 8,
{
    parse_number_of_encoding(index as u64, rest);
}

/// Appends the encoding of an index.
pub fn encode_index(index: usize, out: &mut Vec<u8>)
    ensures
        final(out)@ == old(out)@ + index_encoding(index),
{
    encode_number(index as u64, out);
}

/// Reads an index from the front of `bytes`.
pub fn decode_index(bytes: &[u8]) -> (r: Option<(usize, usize)>)
    ensures
        r == match parse_index(bytes@) {
            Some((index, read)) => Some((index, read as usize)),
            None => None,
        },
        r matches Some((_, read)) ==> read <= bytes.len(),
{
    match decode_number(bytes) {
        Some((n, read)) => {
            if n <= usize::MAX as u64 {
                Some((n as usize, read))
            } else {
                None
            }
        },
        None => None,
    }
}

/// A value with a binary form of its own.
pub trait Coded: Sized {
    /// The binary form of the value.
    spec fn encoding(self) -> Seq<u8>;

    /// Reads one value from the front of `bytes`: the value and the count
    /// of bytes read, or `None` where no value stands there.
    spec fn parse(bytes: Seq<u8>) -> Option<(Self, int)>;

    /// A value is read back from its encoding, whatever follows.
    proof fn parse_of_encoding(value: Self, rest: Seq<u8>)
        ensures
            Self::parse(value.encoding() + rest) == Some((value, value.encoding().len() as int)),
    ;

    /// Appends the encoding of the value.
    fn encode(&self, out: &mut Vec<u8>)
        ensures
            final(out)@ == old(out)@ + self.encoding(),
    ;

    /// Reads one value from the front of `bytes`.
    fn decode(bytes: &[u8]) -> (r: Option<(Self, usize)>)
        ensures
            match r {
                Some((value, read)) => Self::parse(bytes@) == Some((value, read as int)) && read
                    <= bytes.len(),
                None => Self::parse(bytes@) is None,
            },
    ;
}

/// The encodings of the entries of a list, one after the other.
pub open spec fn entries_encoding<T: Coded>(list: Seq<T>) -> Seq<u8>
    decreases list.len(),
{
    if list.len() == 0 {
        seq![]
    } else {
        list[0].encoding() + entries_encoding(list.drop_first())
    }
}

/// The binary form of a list: the number of its entries, then the entries.
pub open spec fn list_encoding<T: Coded>(list: Seq<T>) -> Seq<u8> {
    number_encoding(list.len() as u64) + entries_encoding(list)
}

/// Reads `count` entries from the front of `bytes`.
pub open spec fn parse_entries<T: Coded>(bytes: Seq<u8>, count: nat) -> Option<(Seq<T>, int)>
    decreases count,
{
    if count == 0 {
        Some((seq![], 0))
    } else {
        match T::parse(bytes) {
            Some((first, read)) => match parse_entries::<T>(bytes.skip(read), (count - 1) as nat) {
                Some((others, more)) => Some((seq![first] + others, read + more)),
                None => None,
            },
            None => None,
        }
    }
}

/// Reads a list from the front of `bytes`.
pub open spec fn parse_list<T: Coded>(bytes: Seq<u8>) -> Option<(Seq<T>, int)> {
    match parse_number(bytes) {
        Some((count, _)) => match parse_entries::<T>(bytes.skip(8), count as nat) {
            Some((list, read)) => Some((list, 8 + read)),
            None => None,
        },
        None => None,
    }
}

/// The entries of a list with one more at its end are encoded as those of
/// the list, then the new one.
pub proof fn entries_encoding_push<T: Coded>(list: Seq<T>, last: T)
    ensures
        entries_encoding(list.push(last)) == entries_encoding(list) + last.encoding(),
    decreases list.len(),
{
    if list.len() == 0 {
        let one = list.push(last);
        assert(one[0] == last);
        assert(entries_encoding(one.drop_first()) =~= Seq::<u8>::empty());
        assert(entries_encoding(one) =~= last.encoding());
        assert(entries_encoding(list) + last.encoding() =~= last.encoding());
    } else {
        assert(list.push(last).drop_first() =~= list.drop_first().push(last));
        entries_encoding_push(list.drop_first(), last);
        assert(entries_encoding(list.push(last)) =~= entries_encoding(list) + last.encoding());
    }
}

/// The entries of a list are read back from their encoding, whatever follows.
pub proof fn parse_entries_of_encoding<T: Coded>(list: Seq<T>, rest: Seq<u8>)
    ensures
        parse_entries::<T>(entries_encoding(list) + rest, list.len()) == Some(
            (list, entries_encoding(list).len() as int),
        ),
    decreases list.len(),
{
    if list.len() == 0 {
        assert(list =~= Seq::<T>::empty());
    } else {
        let first = list[0];
        let others = list.drop_first();
        let all = entries_encoding(list) + rest;
        assert(all =~= first.encoding() + (entries_encoding(others) + rest));
        T::parse_of_encoding(first, entries_encoding(others) + rest);
        assert(all.skip(first.encoding().len() as int) =~= entries_encoding(others) + rest);
        parse_entries_of_encoding(others, rest);
        assert(seq![first] + others =~= list);
    }
}

/// A list is read back from its encoding, whatever follows.
pub proof fn parse_list_of_encoding<T: Coded>(list: Seq<T>, rest: Seq<u8>)
    requires
        list.len() <= u64::MAX,
    ensures
        parse_list::<T>(list_encoding(list) + rest) == Some(
            (list, list_encoding(list).len() as int),
        ),
{
    let all = list_encoding(list) + rest;
    parse_number_of_encoding(list.len() as u64, entries_encoding(list) + rest);
    assert(all =~= number_encoding(list.len() as u64) + (entries_encoding(list) + rest));
    assert(all.skip(8) =~= entries_encoding(list) + rest);
    parse_entries_of_encoding(list, rest);
}

/// Appends the encoding of a list.
pub fn encode_list<T: Coded>(list: &[T], out: &mut Vec<u8>)
    ensures
        final(out)@ == old(out)@ + list_encoding(list@),
        list@.len() <= u64::MAX,
{
    encode_number(list.len() as u64, out);
    let ghost start = out@;
    let mut i: usize = 0;
    while i < list.len()
        invariant
            i <= list.len(),
            out@ == start + entries_encoding(list@.take(i as int)),
        decreases list.len() - i,
    {
        list[i].encode(out);
        proof {
            entries_encoding_push(list@.take(i as int), list@[i as int]);
            assert(list@.take(i as int).push(list@[i as int]) =~= list@.take(i + 1));
            assert(out@ =~= start + entries_encoding(list@.take(i + 1)));
        }
        i += 1;
    }
    assert(list@.take(i as int) =~= list@);
    assert(out@ =~= old(out)@ + list_encoding(list@));
}

/// Reads a list from the front of `bytes`.
pub fn decode_list<T: Coded>(bytes: &[u8]) -> (r: Option<(Vec<T>, usize)>)
    ensures
        match r {
            Some((list, read)) => parse_list::<T>(bytes@) == Some((list@, read as int)) && read
                <= bytes.len(),
            None => parse_list::<T>(bytes@) is None,
        },
{
    let count = match decode_number(bytes) {
        Some((count, _)) => count,
        None => {
            return None;
        },
    };
    let ghost body = bytes@.skip(8);
    let mut list: Vec<T> = Vec::new();
    let mut at: usize = 8;
    let mut i: u64 = 0;
    proof {
        assert(body.skip(0) =~= body);
        match parse_entries::<T>(body, count as nat) {
            Some((others, _)) => {
                assert(list@ + others =~= others);
            },
            None => {},
        }
    }
    while i < count
        invariant
            i <= count,
            8 <= at <= bytes.len(),
            body == bytes@.skip(8),
            parse_number(bytes@) == Some((count, 8int)),
            parse_entries::<T>(body, count as nat) == match parse_entries::<T>(
                body.skip(at - 8),
                (count - i) as nat,
            ) {
                Some((others, more)) => Some((list@ + others, at - 8 + more)),
                None => None,
            },
        decreases count - i,
    {
        let ghost before = list@;
        let ghost tail = body.skip(at - 8);
        let remaining = slice_subrange(bytes, at, bytes.len());
        assert(remaining@ =~= tail);
        match T::decode(remaining) {
            Some((entry, read)) => {
                proof {
                    assert(tail.skip(read as int) =~= body.skip(at + read - 8));
                    match parse_entries::<T>(tail.skip(read as int), (count - i - 1) as nat) {
                        Some((others, more)) => {
                            assert(before + (seq![entry] + others) =~= before.push(entry)
                                + others);
                        },
                        None => {},
                    }
                }
                list.push(entry);
                at = at + read;
                i += 1;
            },
            None => {
                assert(parse_entries::<T>(tail, (count - i) as nat) is None);
                return None;
            },
        }
    }
    assert(list@ + Seq::<T>::empty() =~= list@);
    Some((list, at))
}

} // verus!
