//! The structured form of the errors: a document of named entries. A value
//! of an enumeration is announced by the name of its variant, a field that
//! has a name by that name; texts and numbers stand as they are, and a list
//! is announced by the number of its entries.
//!
//! Each type has a `document` and a `read` that takes one value from the
//! front of a document; `read` undoes `document`, whatever follows.

pub mod http;
pub mod io;
pub mod ssl;
pub mod unified;

use crate::order::slice_equal;
use vstd::prelude::*;
use vstd::slice::slice_subrange;
use vstd::utf8::encode_utf8_decode_utf8;

verus! {

/// One entry of a document.
#[derive(Debug, PartialEq, Eq)]
pub enum Entry {
    /// A value of an enumeration, by the name of its variant.
    Variant(String),
    /// The name of the field whose value follows.
    Field(String),
    /// A text.
    Text(String),
    /// A number that is not negative.
    Number(u64),
    /// A number with a sign.
    Integer(i64),
    /// A list, by the number of its entries, which follow.
    List(u64),
}

/// What an [`Entry`] holds.
pub enum EntryView {
    Variant(Seq<char>),
    Field(Seq<char>),
    Text(Seq<char>),
    Number(u64),
    Integer(i64),
    List(u64),
}

impl View for Entry {
    type V = EntryView;

    open spec fn view(&self) -> EntryView {
        match *self {
            Entry::Variant(name) => EntryView::Variant(name@),
            Entry::Field(name) => EntryView::Field(name@),
            Entry::Text(text) => EntryView::Text(text@),
            Entry::Number(n) => EntryView::Number(n),
            Entry::Integer(n) => EntryView::Integer(n),
            Entry::List(count) => EntryView::List(count),
        }
    }
}

/// What a document holds: the views of its entries, in order.
pub open spec fn entries_view(entries: Seq<Entry>) -> Seq<EntryView> {
    Seq::new(entries.len(), |i: int| entries[i]@)
}

/// Whether the two texts are the same.
pub fn str_equal(a: &str, b: &str) -> (r: bool)
    ensures
        r == (a@ == b@),
{
    proof {
        encode_utf8_decode_utf8(a@);
        encode_utf8_decode_utf8(b@);
    }
    slice_equal(a.as_bytes(), b.as_bytes())
}

/// Appends one entry to a document.
pub fn put(entry: Entry, out: &mut Vec<Entry>)
    ensures
        entries_view(final(out)@) == entries_view(old(out)@) + seq![entry@],
{
    out.push(entry);
    assert(entries_view(out@) =~= entries_view(old(out)@) + seq![entry@]);
}

/// The part of a document from the entry at `from` on.
pub(crate) fn rest_of(entries: &[Entry], from: usize) -> (rest: &[Entry])
    requires
        from <= entries.len(),
    ensures
        entries_view(rest@) == entries_view(entries@).skip(from as int),
        rest.len() == entries.len() - from,
{
    let rest = slice_subrange(entries, from, entries.len());
    assert(entries_view(rest@) =~= entries_view(entries@).skip(from as int));
    rest
}

/// A document that is made of one entry and what follows starts with that
/// entry.
pub proof fn first_of_one(entry: EntryView, rest: Seq<EntryView>)
    ensures
        (seq![entry] + rest).len() > 0,
        (seq![entry] + rest)[0] == entry,
        seq![entry].len() == 1,
{
}

/// What follows the name of the variant of a value with one field: the
/// field, then whatever came after the value.
pub proof fn after_name(name: EntryView, field: Seq<EntryView>, rest: Seq<EntryView>)
    ensures
        (seq![name] + field + rest)[0] == name,
        (seq![name] + field + rest).skip(1) == field + rest,
        (seq![name] + field).len() == 1 + field.len(),
        field.len() == 0 ==> seq![name] + field == seq![name],
{
    assert((seq![name] + field + rest).skip(1) =~= field + rest);
    if field.len() == 0 {
        assert(seq![name] + field =~= seq![name]);
    }
}

/// What follows the name of the variant of a value with two named fields:
/// the name of the first field and the field, then the name of the second
/// and the second, then whatever came after the value.
pub proof fn after_name_and_fields(
    name: EntryView,
    first_name: EntryView,
    first: Seq<EntryView>,
    second_name: EntryView,
    second: Seq<EntryView>,
    rest: Seq<EntryView>,
)
    ensures
        ({
            let all = seq![name] + seq![first_name] + first + seq![second_name] + second + rest;
            let tail = all.skip(1);
            &&& all[0] == name
            &&& tail.len() > 0
            &&& tail[0] == first_name
            &&& tail.skip(1) == first + (seq![second_name] + (second + rest))
            &&& tail.skip(1 + first.len() as int).len() > 0
            &&& tail.skip(1 + first.len() as int)[0] == second_name
            &&& tail.skip(1 + first.len() as int + 1) == second + rest
            &&& (seq![name] + seq![first_name] + first + seq![second_name] + second).len() == 1
                + 1 + first.len() + 1 + second.len()
        }),
{
    let all = seq![name] + seq![first_name] + first + seq![second_name] + second + rest;
    let tail = all.skip(1);
    assert(tail.skip(1) =~= first + (seq![second_name] + (second + rest)));
    assert(tail.skip(1 + first.len() as int) =~= seq![second_name] + (second + rest));
    assert(tail.skip(1 + first.len() as int + 1) =~= second + rest);
}

/// Reads a text from the front of a document.
pub open spec fn read_text(entries: Seq<EntryView>) -> Option<(Seq<char>, int)> {
    if entries.len() == 0 {
        None
    } else {
        match entries[0] {
            EntryView::Text(text) => Some((text, 1)),
            _ => None,
        }
    }
}

/// Reads an index from the front of a document: a number that an index of
/// this machine can hold.
pub open spec fn read_index(entries: Seq<EntryView>) -> Option<(usize, int)> {
    if entries.len() == 0 {
        None
    } else {
        match entries[0] {
            EntryView::Number(n) => if n <= usize::MAX {
                Some((n as usize, 1))
            } else {
                None
            },
            _ => None,
        }
    }
}

/// Reads a code of one byte from the front of a document.
pub open spec fn read_octet(entries: Seq<EntryView>) -> Option<(u8, int)> {
    if entries.len() == 0 {
        None
    } else {
        match entries[0] {
            EntryView::Number(n) => if n <= u8::MAX {
                Some((n as u8, 1))
            } else {
                None
            },
            _ => None,
        }
    }
}

/// Whether the document starts with the name of this field.
pub open spec fn starts_with_field(entries: Seq<EntryView>, name: Seq<char>) -> bool {
    entries.len() > 0 && entries[0] == EntryView::Field(name)
}

/// Reads a text from the front of a document.
pub fn interpret_text(entries: &[Entry]) -> (r: Option<(String, usize)>)
    ensures
        match r {
            Some((text, read)) => read_text(entries_view(entries@)) == Some((text@, read as int))
                && read <= entries.len(),
            None => read_text(entries_view(entries@)) is None,
        },
{
    if entries.len() == 0 {
        return None;
    }
    match &entries[0] {
        Entry::Text(text) => Some((text.clone(), 1)),
        _ => None,
    }
}

/// Reads an index from the front of a document.
pub fn interpret_index(entries: &[Entry]) -> (r: Option<(usize, usize)>)
    ensures
        r == match read_index(entries_view(entries@)) {
            Some((index, read)) => Some((index, read as usize)),
            None => None,
        },
        r matches Some((_, read)) ==> read <= entries.len(),
{
    if entries.len() == 0 {
        return None;
    }
    match &entries[0] {
        Entry::Number(n) => {
            if *n <= usize::MAX as u64 {
                Some((*n as usize, 1))
            } else {
                None
            }
        },
        _ => None,
    }
}

/// Reads a code of one byte from the front of a document.
pub fn interpret_octet(entries: &[Entry]) -> (r: Option<(u8, usize)>)
    ensures
        r == match read_octet(entries_view(entries@)) {
            Some((code, read)) => Some((code, read as usize)),
            None => None,
        },
        r matches Some((_, read)) ==> read <= entries.len(),
{
    if entries.len() == 0 {
        return None;
    }
    match &entries[0] {
        Entry::Number(n) => {
            if *n <= 255 {
                Some((*n as u8, 1))
            } else {
                None
            }
        },
        _ => None,
    }
}

/// Whether the document starts with the name of this field.
pub fn has_field(entries: &[Entry], name: &str) -> (r: bool)
    ensures
        r == starts_with_field(entries_view(entries@), name@),
{
    if entries.len() == 0 {
        return false;
    }
    match &entries[0] {
        Entry::Field(found) => str_equal(found.as_str(), name),
        _ => false,
    }
}

/// A value with a structured form of its own.
pub trait Described: Sized {
    /// The structured form of the value.
    spec fn document(self) -> Seq<EntryView>;

    /// Reads one value from the front of a document: the value and the
    /// count of entries read, or `None` where no value stands there.
    spec fn read(entries: Seq<EntryView>) -> Option<(Self, int)>;

    /// A value is read back from its document, whatever follows.
    proof fn read_of_document(value: Self, rest: Seq<EntryView>)
        ensures
            Self::read(value.document() + rest) == Some((value, value.document().len() as int)),
    ;

    /// Appends the structured form of the value.
    fn describe(&self, out: &mut Vec<Entry>)
        ensures
            entries_view(final(out)@) == entries_view(old(out)@) + self.document(),
    ;

    /// Reads one value from the front of a document.
    fn interpret(entries: &[Entry]) -> (r: Option<(Self, usize)>)
        ensures
            match r {
                Some((value, read)) => Self::read(entries_view(entries@)) == Some(
                    (value, read as int),
                ) && read <= entries.len(),
                None => Self::read(entries_view(entries@)) is None,
            },
    ;
}

/// The documents of the items of a list, one after the other.
pub open spec fn items_document<T: Described>(list: Seq<T>) -> Seq<EntryView>
    decreases list.len(),
{
    if list.len() == 0 {
        seq![]
    } else {
        list[0].document() + items_document(list.drop_first())
    }
}

/// The structured form of a list: the number of its items, then the items.
pub open spec fn list_document<T: Described>(list: Seq<T>) -> Seq<EntryView> {
    seq![EntryView::List(list.len() as u64)] + items_document(list)
}

/// Reads `count` items from the front of a document.
pub open spec fn read_items<T: Described>(entries: Seq<EntryView>, count: nat) -> Option<
    (Seq<T>, int),
>
    decreases count,
{
    if count == 0 {
        Some((seq![], 0))
    } else {
        match T::read(entries) {
            Some((first, read)) => match read_items::<T>(entries.skip(read), (count - 1) as nat) {
                Some((others, more)) => Some((seq![first] + others, read + more)),
                None => None,
            },
            None => None,
        }
    }
}

/// Reads a list from the front of a document.
pub open spec fn read_list<T: Described>(entries: Seq<EntryView>) -> Option<(Seq<T>, int)> {
    if entries.len() == 0 {
        None
    } else {
        match entries[0] {
            EntryView::List(count) => match read_items::<T>(entries.skip(1), count as nat) {
                Some((list, read)) => Some((list, 1 + read)),
                None => None,
            },
            _ => None,
        }
    }
}

/// The items of a list with one more at its end are described as those of
/// the list, then the new one.
pub proof fn items_document_push<T: Described>(list: Seq<T>, last: T)
    ensures
        items_document(list.push(last)) == items_document(list) + last.document(),
    decreases list.len(),
{
    if list.len() == 0 {
        let one = list.push(last);
        assert(one[0] == last);
        assert(items_document(one.drop_first()) =~= Seq::<EntryView>::empty());
        assert(items_document(one) =~= last.document());
        assert(items_document(list) + last.document() =~= last.document());
    } else {
        assert(list.push(last).drop_first() =~= list.drop_first().push(last));
        items_document_push(list.drop_first(), last);
        assert(items_document(list.push(last)) =~= items_document(list) + last.document());
    }
}

/// The items of a list are read back from their documents, whatever follows.
pub proof fn read_items_of_document<T: Described>(list: Seq<T>, rest: Seq<EntryView>)
    ensures
        read_items::<T>(items_document(list) + rest, list.len()) == Some(
            (list, items_document(list).len() as int),
        ),
    decreases list.len(),
{
    if list.len() == 0 {
        assert(list =~= Seq::<T>::empty());
    } else {
        let first = list[0];
        let others = list.drop_first();
        let all = items_document(list) + rest;
        assert(all =~= first.document() + (items_document(others) + rest));
        T::read_of_document(first, items_document(others) + rest);
        assert(all.skip(first.document().len() as int) =~= items_document(others) + rest);
        read_items_of_document(others, rest);
        assert(seq![first] + others =~= list);
    }
}

/// A list is read back from its document, whatever follows.
pub proof fn read_list_of_document<T: Described>(list: Seq<T>, rest: Seq<EntryView>)
    requires
        list.len() <= u64::MAX,
    ensures
        read_list::<T>(list_document(list) + rest) == Some(
            (list, list_document(list).len() as int),
        ),
{
    let all = list_document(list) + rest;
    assert(all[0] == EntryView::List(list.len() as u64));
    assert(all.skip(1) =~= items_document(list) + rest);
    read_items_of_document(list, rest);
}

/// Appends the structured form of a list.
pub fn describe_list<T: Described>(list: &[T], out: &mut Vec<Entry>)
    ensures
        entries_view(final(out)@) == entries_view(old(out)@) + list_document(list@),
        list@.len() <= u64::MAX,
{
    put(Entry::List(list.len() as u64), out);
    let ghost start = entries_view(out@);
    let mut i: usize = 0;
    while i < list.len()
        invariant
            i <= list.len(),
            entries_view(out@) == start + items_document(list@.take(i as int)),
        decreases list.len() - i,
    {
        list[i].describe(out);
        proof {
            items_document_push(list@.take(i as int), list@[i as int]);
            assert(list@.take(i as int).push(list@[i as int]) =~= list@.take(i + 1));
            assert(entries_view(out@) =~= start + items_document(list@.take(i + 1)));
        }
        i += 1;
    }
    assert(list@.take(i as int) =~= list@);
    assert(entries_view(out@) =~= entries_view(old(out)@) + list_document(list@));
}

/// Reads a list from the front of a document.
pub fn interpret_list<T: Described>(entries: &[Entry]) -> (r: Option<(Vec<T>, usize)>)
    ensures
        match r {
            Some((list, read)) => read_list::<T>(entries_view(entries@)) == Some(
                (list@, read as int),
            ) && read <= entries.len(),
            None => read_list::<T>(entries_view(entries@)) is None,
        },
{
    if entries.len() == 0 {
        return None;
    }
    let count = match &entries[0] {
        Entry::List(count) => *count,
        _ => {
            return None;
        },
    };
    let ghost all = entries_view(entries@);
    let ghost body = all.skip(1);
    let mut list: Vec<T> = Vec::new();
    let mut at: usize = 1;
    let mut i: u64 = 0;
    proof {
        assert(body.skip(0) =~= body);
        match read_items::<T>(body, count as nat) {
            Some((others, _)) => {
                assert(list@ + others =~= others);
            },
            None => {},
        }
    }
    while i < count
        invariant
            i <= count,
            1 <= at <= entries.len(),
            all == entries_view(entries@),
            body == all.skip(1),
            all[0] == EntryView::List(count),
            read_items::<T>(body, count as nat) == match read_items::<T>(
                body.skip(at - 1),
                (count - i) as nat,
            ) {
                Some((others, more)) => Some((list@ + others, at - 1 + more)),
                None => None,
            },
        decreases count - i,
    {
        let ghost before = list@;
        let ghost tail = body.skip(at - 1);
        let remaining = rest_of(entries, at);
        assert(entries_view(remaining@) =~= tail);
        match T::interpret(remaining) {
            Some((item, read)) => {
                proof {
                    assert(tail.skip(read as int) =~= body.skip(at + read - 1));
                    match read_items::<T>(tail.skip(read as int), (count - i - 1) as nat) {
                        Some((others, more)) => {
                            assert(before + (seq![item] + others) =~= before.push(item) + others);
                        },
                        None => {},
                    }
                }
                list.push(item);
                at = at + read;
                i += 1;
            },
            None => {
                assert(read_items::<T>(tail, (count - i) as nat) is None);
                return None;
            },
        }
    }
    assert(list@ + Seq::<T>::empty() =~= list@);
    Some((list, at))
}

} // verus!
