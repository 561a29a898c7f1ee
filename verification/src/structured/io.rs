//! The structured form of the I/O category.

use crate::errors::io::{PoseidonErrorKind, PoseidonErrorKindView};
use crate::structured::{
    after_name, entries_view, first_of_one, interpret_text, put, read_text, rest_of, str_equal,
    Entry, EntryView,
};
use vstd::prelude::*;

verus! {

impl PoseidonErrorKindView {
    /// The name of the variant at this place of the declaration.
    pub open spec fn name_of_rank(rank: int) -> Seq<char> {
        if rank == 0 {
            "NotFound"@
        } else if rank == 1 {
            "PermissionDenied"@
        } else if rank == 2 {
            "ConnectionRefused"@
        } else if rank == 3 {
            "ConnectionReset"@
        } else if rank == 4 {
            "NotConnected"@
        } else if rank == 5 {
            "ConnectionAborted"@
        } else if rank == 6 {
            "AddrInUse"@
        } else if rank == 7 {
            "AddrNotAvailable"@
        } else if rank == 8 {
            "AlreadyExists"@
        } else if rank == 9 {
            "WouldBlock"@
        } else if rank == 10 {
            "InvalidInput"@
        } else if rank == 11 {
            "InvalidData"@
        } else if rank == 12 {
            "BrokenPipe"@
        } else if rank == 13 {
            "TimedOut"@
        } else if rank == 14 {
            "WriteZero"@
        } else if rank == 15 {
            "Interrupted"@
        } else if rank == 16 {
            "Unsupported"@
        } else if rank == 17 {
            "UnexpectedEof"@
        } else if rank == 18 {
            "OutOfMemory"@
        } else if rank == 19 {
            "Other"@
        } else if rank == 20 {
            "Unspecified"@
        } else {
            Seq::empty()
        }
    }

    /// The place of the variant of this name, if there is one.
    pub open spec fn rank_of_name(name: Seq<char>) -> Option<int> {
        if exists|rank: int| 0 <= rank < 21 && Self::name_of_rank(rank) == name {
            Some(choose|rank: int| 0 <= rank < 21 && Self::name_of_rank(rank) == name)
        } else {
            None
        }
    }

    /// The structured form: the name of the variant, then the fields, each
    /// field that has a name after that name.
    pub open spec fn document(self) -> Seq<EntryView> {
        match self {
            PoseidonErrorKindView::Unspecified(a0) => {
                seq![EntryView::Variant(Self::name_of_rank(20))]
                    + seq![EntryView::Text(a0)]
            },
            _ => seq![EntryView::Variant(Self::name_of_rank(self.rank()))],
        }
    }

    /// Reads one value from the front of a document: the value and the count
    /// of entries read, or `None` where no value stands there.
    #[verifier::opaque]
    pub open spec fn read(entries: Seq<EntryView>) -> Option<(Self, int)> {
        if entries.len() == 0 {
            None
        } else {
            let rest = entries.skip(1);
            match entries[0] {
                EntryView::Variant(name) => match Self::rank_of_name(name) {
                    Some(rank) => {
                        if rank == 20 {
                            match read_text(rest) {
                                Some((a0, n0)) => {
                                    Some((PoseidonErrorKindView::Unspecified(a0), 1 + n0))
                                },
                                None => None,
                            }
                        } else {
                            match Self::unit_of_rank(rank) {
                                Some(value) => Some((value, 1)),
                                None => None,
                            }
                        }
                    },
                    None => None,
                },
                _ => None,
            }
        }
    }
}

/// No two categories have the same name.
pub proof fn io_names_are_distinct()
    ensures
        forall|a: int, b: int|
            0 <= a < 21 && 0 <= b < 21 && a != b ==> #[trigger] PoseidonErrorKindView::name_of_rank(
                a,
            ) != #[trigger] PoseidonErrorKindView::name_of_rank(b),
{
    reveal_strlit("NotFound");
    assert("NotFound"@.len() == 8 && "NotFound"@[3] == 'F');
    reveal_strlit("PermissionDenied");
    assert("PermissionDenied"@.len() == 16
        && "PermissionDenied"@[3] == 'm'
        && "PermissionDenied"@[10] == 'D');
    reveal_strlit("ConnectionRefused");
    assert("ConnectionRefused"@.len() == 17
        && "ConnectionRefused"@[3] == 'n'
        && "ConnectionRefused"@[10] == 'R');
    reveal_strlit("ConnectionReset");
    assert("ConnectionReset"@.len() == 15
        && "ConnectionReset"@[3] == 'n'
        && "ConnectionReset"@[10] == 'R');
    reveal_strlit("NotConnected");
    assert("NotConnected"@.len() == 12 && "NotConnected"@[3] == 'C' && "NotConnected"@[10] == 'e');
    reveal_strlit("ConnectionAborted");
    assert("ConnectionAborted"@.len() == 17
        && "ConnectionAborted"@[3] == 'n'
        && "ConnectionAborted"@[10] == 'A');
    reveal_strlit("AddrInUse");
    assert("AddrInUse"@.len() == 9 && "AddrInUse"@[3] == 'r');
    reveal_strlit("AddrNotAvailable");
    assert("AddrNotAvailable"@.len() == 16
        && "AddrNotAvailable"@[3] == 'r'
        && "AddrNotAvailable"@[10] == 'i');
    reveal_strlit("AlreadyExists");
    assert("AlreadyExists"@.len() == 13
        && "AlreadyExists"@[3] == 'e'
        && "AlreadyExists"@[10] == 's');
    reveal_strlit("WouldBlock");
    assert("WouldBlock"@.len() == 10 && "WouldBlock"@[3] == 'l');
    reveal_strlit("InvalidInput");
    assert("InvalidInput"@.len() == 12 && "InvalidInput"@[3] == 'a' && "InvalidInput"@[10] == 'u');
    reveal_strlit("InvalidData");
    assert("InvalidData"@.len() == 11 && "InvalidData"@[3] == 'a' && "InvalidData"@[10] == 'a');
    reveal_strlit("BrokenPipe");
    assert("BrokenPipe"@.len() == 10 && "BrokenPipe"@[3] == 'k');
    reveal_strlit("TimedOut");
    assert("TimedOut"@.len() == 8 && "TimedOut"@[3] == 'e');
    reveal_strlit("WriteZero");
    assert("WriteZero"@.len() == 9 && "WriteZero"@[3] == 't');
    reveal_strlit("Interrupted");
    assert("Interrupted"@.len() == 11 && "Interrupted"@[3] == 'e' && "Interrupted"@[10] == 'd');
    reveal_strlit("Unsupported");
    assert("Unsupported"@.len() == 11 && "Unsupported"@[3] == 'u' && "Unsupported"@[10] == 'd');
    reveal_strlit("UnexpectedEof");
    assert("UnexpectedEof"@.len() == 13
        && "UnexpectedEof"@[3] == 'x'
        && "UnexpectedEof"@[10] == 'E');
    reveal_strlit("OutOfMemory");
    assert("OutOfMemory"@.len() == 11 && "OutOfMemory"@[3] == 'O' && "OutOfMemory"@[10] == 'y');
    reveal_strlit("Other");
    assert("Other"@.len() == 5 && "Other"@[3] == 'e');
    reveal_strlit("Unspecified");
    assert("Unspecified"@.len() == 11 && "Unspecified"@[3] == 'p' && "Unspecified"@[10] == 'd');
}

/// The name of a variant leads back to its place.
pub proof fn io_rank_of_its_name(rank: int)
    requires
        0 <= rank < 21,
    ensures
        PoseidonErrorKindView::rank_of_name(PoseidonErrorKindView::name_of_rank(rank))
            == Some(rank),
{
    io_names_are_distinct();
}

impl PoseidonErrorKind {
    /// The name of the variant.
    pub fn variant_name(&self) -> (name: &'static str)
        ensures
            name@ == PoseidonErrorKindView::name_of_rank(self@.rank()),
    {
        match self.rank_value() {
            0 => "NotFound",
            1 => "PermissionDenied",
            2 => "ConnectionRefused",
            3 => "ConnectionReset",
            4 => "NotConnected",
            5 => "ConnectionAborted",
            6 => "AddrInUse",
            7 => "AddrNotAvailable",
            8 => "AlreadyExists",
            9 => "WouldBlock",
            10 => "InvalidInput",
            11 => "InvalidData",
            12 => "BrokenPipe",
            13 => "TimedOut",
            14 => "WriteZero",
            15 => "Interrupted",
            16 => "Unsupported",
            17 => "UnexpectedEof",
            18 => "OutOfMemory",
            19 => "Other",
            _ => "Unspecified",
        }
    }

    /// The place of the variant of this name, if there is one.
    pub fn rank_of_name_value(name: &str) -> (r: Option<u8>)
        ensures
            r == match PoseidonErrorKindView::rank_of_name(name@) {
                Some(rank) => Some(rank as u8),
                None => None,
            },
    {
        proof {
            io_names_are_distinct();
        }
        if str_equal(name, "NotFound") {
            assert(PoseidonErrorKindView::name_of_rank(0) == name@);
            Some(0)
        }         else if str_equal(name, "PermissionDenied") {
            assert(PoseidonErrorKindView::name_of_rank(1) == name@);
            Some(1)
        }         else if str_equal(name, "ConnectionRefused") {
            assert(PoseidonErrorKindView::name_of_rank(2) == name@);
            Some(2)
        }         else if str_equal(name, "ConnectionReset") {
            assert(PoseidonErrorKindView::name_of_rank(3) == name@);
            Some(3)
        }         else if str_equal(name, "NotConnected") {
            assert(PoseidonErrorKindView::name_of_rank(4) == name@);
            Some(4)
        }         else if str_equal(name, "ConnectionAborted") {
            assert(PoseidonErrorKindView::name_of_rank(5) == name@);
            Some(5)
        }         else if str_equal(name, "AddrInUse") {
            assert(PoseidonErrorKindView::name_of_rank(6) == name@);
            Some(6)
        }         else if str_equal(name, "AddrNotAvailable") {
            assert(PoseidonErrorKindView::name_of_rank(7) == name@);
            Some(7)
        }         else if str_equal(name, "AlreadyExists") {
            assert(PoseidonErrorKindView::name_of_rank(8) == name@);
            Some(8)
        }         else if str_equal(name, "WouldBlock") {
            assert(PoseidonErrorKindView::name_of_rank(9) == name@);
            Some(9)
        }         else if str_equal(name, "InvalidInput") {
            assert(PoseidonErrorKindView::name_of_rank(10) == name@);
            Some(10)
        }         else if str_equal(name, "InvalidData") {
            assert(PoseidonErrorKindView::name_of_rank(11) == name@);
            Some(11)
        }         else if str_equal(name, "BrokenPipe") {
            assert(PoseidonErrorKindView::name_of_rank(12) == name@);
            Some(12)
        }         else if str_equal(name, "TimedOut") {
            assert(PoseidonErrorKindView::name_of_rank(13) == name@);
            Some(13)
        }         else if str_equal(name, "WriteZero") {
            assert(PoseidonErrorKindView::name_of_rank(14) == name@);
            Some(14)
        }         else if str_equal(name, "Interrupted") {
            assert(PoseidonErrorKindView::name_of_rank(15) == name@);
            Some(15)
        }         else if str_equal(name, "Unsupported") {
            assert(PoseidonErrorKindView::name_of_rank(16) == name@);
            Some(16)
        }         else if str_equal(name, "UnexpectedEof") {
            assert(PoseidonErrorKindView::name_of_rank(17) == name@);
            Some(17)
        }         else if str_equal(name, "OutOfMemory") {
            assert(PoseidonErrorKindView::name_of_rank(18) == name@);
            Some(18)
        }         else if str_equal(name, "Other") {
            assert(PoseidonErrorKindView::name_of_rank(19) == name@);
            Some(19)
        }         else if str_equal(name, "Unspecified") {
            assert(PoseidonErrorKindView::name_of_rank(20) == name@);
            Some(20)
        } else {
            None
        }
    }

    /// Appends the structured form of `self`.
    pub fn describe(&self, out: &mut Vec<Entry>)
        ensures
            entries_view(final(out)@) == entries_view(old(out)@) + self@.document(),
    {
        put(Entry::Variant(self.variant_name().to_owned()), out);
        match self {
            PoseidonErrorKind::Unspecified(x0) => {
                put(Entry::Text(x0.clone()), out);
            },
            _ => {},
        }
        assert(entries_view(out@) =~= entries_view(old(out)@) + self@.document());
    }

    /// Reads one value from the front of a document: the value and the count
    /// of entries read, or `None` where no value stands there.
    pub fn interpret(entries: &[Entry]) -> (r: Option<(Self, usize)>)
        ensures
            match r {
                Some((value, read)) => PoseidonErrorKindView::read(entries_view(entries@)) == Some(
                    (value@, read as int),
                ) && read <= entries.len(),
                None => PoseidonErrorKindView::read(entries_view(entries@)) is None,
            },
    {
        proof {
            reveal(PoseidonErrorKindView::read);
        }
        if entries.len() == 0 {
            return None;
        }
        let rank = match &entries[0] {
            Entry::Variant(name) => match Self::rank_of_name_value(name.as_str()) {
                Some(rank) => rank,
                None => {
                    return None;
                },
            },
            _ => {
                return None;
            },
        };
        let rest = rest_of(entries, 1);
        if rank == 20 {
            match interpret_text(rest) {
                Some((x0, n0)) => Some((PoseidonErrorKind::Unspecified(x0), 1 + n0)),
                None => None,
            }
        } else {
            match Self::unit_of_rank_value(rank) {
                Some(value) => Some((value, 1)),
                None => None,
            }
        }
    }

    /// The structured form of `self`.
    pub fn to_document(&self) -> (document: Vec<Entry>)
        ensures
            entries_view(document@) == self@.document(),
    {
        let mut document: Vec<Entry> = Vec::new();
        self.describe(&mut document);
        assert(entries_view(document@) =~= self@.document());
        document
    }

    /// The value whose structured form the document is, all of it; `None`
    /// where the document is no structured form, or more entries follow one.
    pub fn from_document(entries: &[Entry]) -> (r: Option<Self>)
        ensures
            match r {
                Some(value) => PoseidonErrorKindView::read(entries_view(entries@)) == Some(
                    (value@, entries@.len() as int),
                ),
                None => {
                    !(PoseidonErrorKindView::read(entries_view(entries@)) matches Some((_, read))
                        && read == entries@.len())
                },
            },
    {
        match Self::interpret(entries) {
            Some((value, read)) => {
                if read == entries.len() {
                    Some(value)
                } else {
                    None
                }
            },
            None => None,
        }
    }
}

/// A category is read back from its document, whatever follows.
pub proof fn io_read_of_document(value: PoseidonErrorKindView, rest: Seq<EntryView>)
    ensures
        PoseidonErrorKindView::read(value.document() + rest) == Some(
            (value, value.document().len() as int),
        ),
{
    reveal(PoseidonErrorKindView::read);
    let tag = EntryView::Variant(PoseidonErrorKindView::name_of_rank(value.rank()));
    io_rank_of_its_name(value.rank());
    match value {
        PoseidonErrorKindView::Unspecified(a0) => {
            after_name(tag, seq![EntryView::Text(a0)], rest);
            first_of_one(EntryView::Text(a0), rest);
        },
        _ => {
            after_name(tag, Seq::empty(), rest);
        },
    }
}

/// Reading the document of a category gives the value back, and reads all of it.
pub proof fn io_document_round_trip(value: PoseidonErrorKindView)
    ensures
        PoseidonErrorKindView::read(value.document()) == Some(
            (value, value.document().len() as int),
        ),
{
    io_read_of_document(value, Seq::empty());
    assert(value.document() + Seq::<EntryView>::empty() =~= value.document());
}

/// Two values with the same document are the same value.
pub proof fn io_document_is_injective(a: PoseidonErrorKindView, b: PoseidonErrorKindView)
    requires
        a.document() == b.document(),
    ensures
        a == b,
{
    io_document_round_trip(a);
    io_document_round_trip(b);
}

} // verus!
