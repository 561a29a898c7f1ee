//! The structured form of the transport category and of a reported error.

use crate::errors::http::{HttpError, HttpErrorView, JsonError, JsonErrorView};
use crate::structured::{
    after_name, entries_view, first_of_one, has_field, interpret_text, put, read_text, rest_of,
    starts_with_field, str_equal, Entry, EntryView,
};
use vstd::prelude::*;

verus! {

/// Reads a code from the front of a document: a number with a sign that a
/// code can hold.
pub open spec fn read_code(entries: Seq<EntryView>) -> Option<(i16, int)> {
    if entries.len() == 0 {
        None
    } else {
        match entries[0] {
            EntryView::Integer(n) => if i16::MIN <= n <= i16::MAX {
                Some((n as i16, 1))
            } else {
                None
            },
            _ => None,
        }
    }
}

impl JsonErrorView {
    /// The structured form: the code and the message, each after its name.
    pub open spec fn document(self) -> Seq<EntryView> {
        seq![
            EntryView::Field("code"@),
            EntryView::Integer(self.code as i64),
            EntryView::Field("message"@),
            EntryView::Text(self.message),
        ]
    }

    /// Reads one value from the front of a document: the value and the count
    /// of entries read, or `None` where no value stands there.
    #[verifier::opaque]
    pub open spec fn read(entries: Seq<EntryView>) -> Option<(Self, int)> {
        if !starts_with_field(entries, "code"@) {
            None
        } else {
            match read_code(entries.skip(1)) {
                Some((code, _)) => if !starts_with_field(entries.skip(2), "message"@) {
                    None
                } else {
                    match read_text(entries.skip(3)) {
                        Some((message, _)) => Some((JsonErrorView { code, message }, 4)),
                        None => None,
                    }
                },
                None => None,
            }
        }
    }
}

impl JsonError {
    /// Appends the structured form of `self`.
    pub fn describe(&self, out: &mut Vec<Entry>)
        ensures
            entries_view(final(out)@) == entries_view(old(out)@) + self@.document(),
    {
        put(Entry::Field("code".to_owned()), out);
        put(Entry::Integer(self.code as i64), out);
        put(Entry::Field("message".to_owned()), out);
        put(Entry::Text(self.message.clone()), out);
        assert(entries_view(out@) =~= entries_view(old(out)@) + self@.document());
    }

    /// Reads one value from the front of a document: the value and the count
    /// of entries read, or `None` where no value stands there.
    pub fn interpret(entries: &[Entry]) -> (r: Option<(Self, usize)>)
        ensures
            match r {
                Some((value, read)) => JsonErrorView::read(entries_view(entries@)) == Some(
                    (value@, read as int),
                ) && read <= entries.len(),
                None => JsonErrorView::read(entries_view(entries@)) is None,
            },
    {
        proof {
            reveal(JsonErrorView::read);
        }
        if !has_field(entries, "code") {
            return None;
        }
        let after_name = rest_of(entries, 1);
        if after_name.len() == 0 {
            return None;
        }
        let code = match &after_name[0] {
            Entry::Integer(n) => {
                if -32768 <= *n && *n <= 32767 {
                    *n as i16
                } else {
                    return None;
                }
            },
            _ => {
                return None;
            },
        };
        let after_code = rest_of(entries, 2);
        if !has_field(after_code, "message") {
            return None;
        }
        match interpret_text(rest_of(entries, 3)) {
            Some((message, _)) => Some((JsonError { code, message }, 4)),
            None => None,
        }
    }

    /// The structured form of `self`.
    pub fn to_document(&self) -> (document: Vec<Entry>)
        ensures
            entries_view(document@) == self@.document(),
    {
        let mut document: Vec<Entry> = Vec::new();
        self.describe(&mut document);
        assert(entries_view(document@) =~= self@.document());
        document
    }

    /// The value whose structured form the document is, all of it; `None`
    /// where the document is no structured form, or more entries follow one.
    pub fn from_document(entries: &[Entry]) -> (r: Option<Self>)
        ensures
            match r {
                Some(value) => JsonErrorView::read(entries_view(entries@)) == Some(
                    (value@, entries@.len() as int),
                ),
                None => !(JsonErrorView::read(entries_view(entries@)) matches Some((_, read))
                    && read == entries@.len()),
            },
    {
        match Self::interpret(entries) {
            Some((value, read)) => {
                if read == entries.len() {
                    Some(value)
                } else {
                    None
                }
            },
            None => None,
        }
    }
}

/// A reported error is read back from its document, whatever follows.
pub proof fn json_read_of_document(value: JsonErrorView, rest: Seq<EntryView>)
    ensures
        JsonErrorView::read(value.document() + rest) == Some(
            (value, value.document().len() as int),
        ),
{
    reveal(JsonErrorView::read);
    let all = value.document() + rest;
    assert(all[0] == value.document()[0]);
    assert(all.skip(1)[0] == value.document()[1]);
    assert(all.skip(2)[0] == value.document()[2]);
    assert(all.skip(3)[0] == value.document()[3]);
}

impl HttpErrorView {
    /// The name of the variant at this place of the declaration.
    pub open spec fn name_of_rank(rank: int) -> Seq<char> {
        if rank == 0 {
            "MalformedChunkLength"@
        } else if rank == 1 {
            "MalformedChunkEnd"@
        } else if rank == 2 {
            "MalformedContentLength"@
        } else if rank == 3 {
            "HeadersOverflow"@
        } else if rank == 4 {
            "StatusLineOverflow"@
        } else if rank == 5 {
            "AddressNotFound"@
        } else if rank == 6 {
            "RedirectLocationMissing"@
        } else if rank == 7 {
            "InfiniteRedirectionLoop"@
        } else if rank == 8 {
            "TooManyRedirections"@
        } else if rank == 9 {
            "InvalidUtf8InResponse"@
        } else if rank == 10 {
            "PunycodeConversionFailed"@
        } else if rank == 11 {
            "HttpsFeatureNotEnabled"@
        } else if rank == 12 {
            "PunycodeFeatureNotEnabled"@
        } else if rank == 13 {
            "BadProxy"@
        } else if rank == 14 {
            "BadProxyCreds"@
        } else if rank == 15 {
            "ProxyConnect"@
        } else if rank == 16 {
            "InvalidProxyCreds"@
        } else if rank == 17 {
            "Other"@
        } else {
            Seq::empty()
        }
    }

    /// The place of the variant of this name, if there is one.
    pub open spec fn rank_of_name(name: Seq<char>) -> Option<int> {
        if exists|rank: int| 0 <= rank < 18 && Self::name_of_rank(rank) == name {
            Some(choose|rank: int| 0 <= rank < 18 && Self::name_of_rank(rank) == name)
        } else {
            None
        }
    }

    /// The structured form: the name of the variant, then the fields, each
    /// field that has a name after that name.
    pub open spec fn document(self) -> Seq<EntryView> {
        match self {
            HttpErrorView::Other(a0) => {
                seq![EntryView::Variant(Self::name_of_rank(17))]
                    + seq![EntryView::Text(a0)]
            },
            _ => seq![EntryView::Variant(Self::name_of_rank(self.rank()))],
        }
    }

    /// Reads one value from the front of a document: the value and the count
    /// of entries read, or `None` where no value stands there.
    #[verifier::opaque]
    pub open spec fn read(entries: Seq<EntryView>) -> Option<(Self, int)> {
        if entries.len() == 0 {
            None
        } else {
            let rest = entries.skip(1);
            match entries[0] {
                EntryView::Variant(name) => match Self::rank_of_name(name) {
                    Some(rank) => {
                        if rank == 17 {
                            match read_text(rest) {
                                Some((a0, n0)) => Some((HttpErrorView::Other(a0), 1 + n0)),
                                None => None,
                            }
                        } else {
                            match Self::unit_of_rank(rank) {
                                Some(value) => Some((value, 1)),
                                None => None,
                            }
                        }
                    },
                    None => None,
                },
                _ => None,
            }
        }
    }
}

/// No two failures have the same name.
pub proof fn http_names_are_distinct()
    ensures
        forall|a: int, b: int|
            0 <= a < 18 && 0 <= b < 18 && a != b ==> #[trigger] HttpErrorView::name_of_rank(
                a,
            ) != #[trigger] HttpErrorView::name_of_rank(b),
{
    reveal_strlit("MalformedChunkLength");
    assert("MalformedChunkLength"@.len() == 20 && "MalformedChunkLength"@[0] == 'M');
    reveal_strlit("MalformedChunkEnd");
    assert("MalformedChunkEnd"@.len() == 17 && "MalformedChunkEnd"@[0] == 'M');
    reveal_strlit("MalformedContentLength");
    assert("MalformedContentLength"@.len() == 22 && "MalformedContentLength"@[0] == 'M');
    reveal_strlit("HeadersOverflow");
    assert("HeadersOverflow"@.len() == 15 && "HeadersOverflow"@[0] == 'H');
    reveal_strlit("StatusLineOverflow");
    assert("StatusLineOverflow"@.len() == 18 && "StatusLineOverflow"@[0] == 'S');
    reveal_strlit("AddressNotFound");
    assert("AddressNotFound"@.len() == 15 && "AddressNotFound"@[0] == 'A');
    reveal_strlit("RedirectLocationMissing");
    assert("RedirectLocationMissing"@.len() == 23 && "RedirectLocationMissing"@[0] == 'R');
    reveal_strlit("InfiniteRedirectionLoop");
    assert("InfiniteRedirectionLoop"@.len() == 23 && "InfiniteRedirectionLoop"@[0] == 'I');
    reveal_strlit("TooManyRedirections");
    assert("TooManyRedirections"@.len() == 19 && "TooManyRedirections"@[0] == 'T');
    reveal_strlit("InvalidUtf8InResponse");
    assert("InvalidUtf8InResponse"@.len() == 21 && "InvalidUtf8InResponse"@[0] == 'I');
    reveal_strlit("PunycodeConversionFailed");
    assert("PunycodeConversionFailed"@.len() == 24 && "PunycodeConversionFailed"@[0] == 'P');
    reveal_strlit("HttpsFeatureNotEnabled");
    assert("HttpsFeatureNotEnabled"@.len() == 22 && "HttpsFeatureNotEnabled"@[0] == 'H');
    reveal_strlit("PunycodeFeatureNotEnabled");
    assert("PunycodeFeatureNotEnabled"@.len() == 25 && "PunycodeFeatureNotEnabled"@[0] == 'P');
    reveal_strlit("BadProxy");
    assert("BadProxy"@.len() == 8 && "BadProxy"@[0] == 'B');
    reveal_strlit("BadProxyCreds");
    assert("BadProxyCreds"@.len() == 13 && "BadProxyCreds"@[0] == 'B');
    reveal_strlit("ProxyConnect");
    assert("ProxyConnect"@.len() == 12 && "ProxyConnect"@[0] == 'P');
    reveal_strlit("InvalidProxyCreds");
    assert("InvalidProxyCreds"@.len() == 17 && "InvalidProxyCreds"@[0] == 'I');
    reveal_strlit("Other");
    assert("Other"@.len() == 5 && "Other"@[0] == 'O');
}

/// The name of a variant leads back to its place.
pub proof fn http_rank_of_its_name(rank: int)
    requires
        0 <= rank < 18,
    ensures
        HttpErrorView::rank_of_name(HttpErrorView::name_of_rank(rank)) == Some(rank),
{
    http_names_are_distinct();
}

impl HttpError {
    /// The name of the variant.
    pub fn variant_name(&self) -> (name: &'static str)
        ensures
            name@ == HttpErrorView::name_of_rank(self@.rank()),
    {
        match self.rank_value() {
            0 => "MalformedChunkLength",
            1 => "MalformedChunkEnd",
            2 => "MalformedContentLength",
            3 => "HeadersOverflow",
            4 => "StatusLineOverflow",
            5 => "AddressNotFound",
            6 => "RedirectLocationMissing",
            7 => "InfiniteRedirectionLoop",
            8 => "TooManyRedirections",
            9 => "InvalidUtf8InResponse",
            10 => "PunycodeConversionFailed",
            11 => "HttpsFeatureNotEnabled",
            12 => "PunycodeFeatureNotEnabled",
            13 => "BadProxy",
            14 => "BadProxyCreds",
            15 => "ProxyConnect",
            16 => "InvalidProxyCreds",
            _ => "Other",
        }
    }

    /// The place of the variant of this name, if there is one.
    pub fn rank_of_name_value(name: &str) -> (r: Option<u8>)
        ensures
            r == match HttpErrorView::rank_of_name(name@) {
                Some(rank) => Some(rank as u8),
                None => None,
            },
    {
        proof {
            http_names_are_distinct();
        }
        if str_equal(name, "MalformedChunkLength") {
            assert(HttpErrorView::name_of_rank(0) == name@);
            Some(0)
        }         else if str_equal(name, "MalformedChunkEnd") {
            assert(HttpErrorView::name_of_rank(1) == name@);
            Some(1)
        }         else if str_equal(name, "MalformedContentLength") {
            assert(HttpErrorView::name_of_rank(2) == name@);
            Some(2)
        }         else if str_equal(name, "HeadersOverflow") {
            assert(HttpErrorView::name_of_rank(3) == name@);
            Some(3)
        }         else if str_equal(name, "StatusLineOverflow") {
            assert(HttpErrorView::name_of_rank(4) == name@);
            Some(4)
        }         else if str_equal(name, "AddressNotFound") {
            assert(HttpErrorView::name_of_rank(5) == name@);
            Some(5)
        }         else if str_equal(name, "RedirectLocationMissing") {
            assert(HttpErrorView::name_of_rank(6) == name@);
            Some(6)
        }         else if str_equal(name, "InfiniteRedirectionLoop") {
            assert(HttpErrorView::name_of_rank(7) == name@);
            Some(7)
        }         else if str_equal(name, "TooManyRedirections") {
            assert(HttpErrorView::name_of_rank(8) == name@);
            Some(8)
        }         else if str_equal(name, "InvalidUtf8InResponse") {
            assert(HttpErrorView::name_of_rank(9) == name@);
            Some(9)
        }         else if str_equal(name, "PunycodeConversionFailed") {
            assert(HttpErrorView::name_of_rank(10) == name@);
            Some(10)
        }         else if str_equal(name, "HttpsFeatureNotEnabled") {
            assert(HttpErrorView::name_of_rank(11) == name@);
            Some(11)
        }         else if str_equal(name, "PunycodeFeatureNotEnabled") {
            assert(HttpErrorView::name_of_rank(12) == name@);
            Some(12)
        }         else if str_equal(name, "BadProxy") {
            assert(HttpErrorView::name_of_rank(13) == name@);
            Some(13)
        }         else if str_equal(name, "BadProxyCreds") {
            assert(HttpErrorView::name_of_rank(14) == name@);
            Some(14)
        }         else if str_equal(name, "ProxyConnect") {
            assert(HttpErrorView::name_of_rank(15) == name@);
            Some(15)
        }         else if str_equal(name, "InvalidProxyCreds") {
            assert(HttpErrorView::name_of_rank(16) == name@);
            Some(16)
        }         else if str_equal(name, "Other") {
            assert(HttpErrorView::name_of_rank(17) == name@);
            Some(17)
        } else {
            None
        }
    }

    /// Appends the structured form of `self`.
    pub fn describe(&self, out: &mut Vec<Entry>)
        ensures
            entries_view(final(out)@) == entries_view(old(out)@) + self@.document(),
    {
        put(Entry::Variant(self.variant_name().to_owned()), out);
        match self {
            HttpError::Other(x0) => {
                put(Entry::Text(x0.clone()), out);
            },
            _ => {},
        }
        assert(entries_view(out@) =~= entries_view(old(out)@) + self@.document());
    }

    /// Reads one value from the front of a document: the value and the count
    /// of entries read, or `None` where no value stands there.
    pub fn interpret(entries: &[Entry]) -> (r: Option<(Self, usize)>)
        ensures
            match r {
                Some((value, read)) => HttpErrorView::read(entries_view(entries@)) == Some(
                    (value@, read as int),
                ) && read <= entries.len(),
                None => HttpErrorView::read(entries_view(entries@)) is None,
            },
    {
        proof {
            reveal(HttpErrorView::read);
        }
        if entries.len() == 0 {
            return None;
        }
        let rank = match &entries[0] {
            Entry::Variant(name) => match Self::rank_of_name_value(name.as_str()) {
                Some(rank) => rank,
                None => {
                    return None;
                },
            },
            _ => {
                return None;
            },
        };
        let rest = rest_of(entries, 1);
        if rank == 17 {
            match interpret_text(rest) {
                Some((x0, n0)) => Some((HttpError::Other(x0), 1 + n0)),
                None => None,
            }
        } else {
            match Self::unit_of_rank_value(rank) {
                Some(value) => Some((value, 1)),
                None => None,
            }
        }
    }

    /// The structured form of `self`.
    pub fn to_document(&self) -> (document: Vec<Entry>)
        ensures
            entries_view(document@) == self@.document(),
    {
        let mut document: Vec<Entry> = Vec::new();
        self.describe(&mut document);
        assert(entries_view(document@) =~= self@.document());
        document
    }

    /// The value whose structured form the document is, all of it; `None`
    /// where the document is no structured form, or more entries follow one.
    pub fn from_document(entries: &[Entry]) -> (r: Option<Self>)
        ensures
            match r {
                Some(value) => HttpErrorView::read(entries_view(entries@)) == Some(
                    (value@, entries@.len() as int),
                ),
                None => {
                    !(HttpErrorView::read(entries_view(entries@)) matches Some((_, read))
                        && read == entries@.len())
                },
            },
    {
        match Self::interpret(entries) {
            Some((value, read)) => {
                if read == entries.len() {
                    Some(value)
                } else {
                    None
                }
            },
            None => None,
        }
    }
}

/// A failure is read back from its document, whatever follows.
pub proof fn http_read_of_document(value: HttpErrorView, rest: Seq<EntryView>)
    ensures
        HttpErrorView::read(value.document() + rest) == Some(
            (value, value.document().len() as int),
        ),
{
    reveal(HttpErrorView::read);
    let tag = EntryView::Variant(HttpErrorView::name_of_rank(value.rank()));
    http_rank_of_its_name(value.rank());
    match value {
        HttpErrorView::Other(a0) => {
            after_name(tag, seq![EntryView::Text(a0)], rest);
            first_of_one(EntryView::Text(a0), rest);
        },
        _ => {
            after_name(tag, Seq::empty(), rest);
        },
    }
}

/// Reading the document of a failure gives the value back, and reads all of it.
pub proof fn http_document_round_trip(value: HttpErrorView)
    ensures
        HttpErrorView::read(value.document()) == Some(
            (value, value.document().len() as int),
        ),
{
    http_read_of_document(value, Seq::empty());
    assert(value.document() + Seq::<EntryView>::empty() =~= value.document());
}

/// Two values with the same document are the same value.
pub proof fn http_document_is_injective(a: HttpErrorView, b: HttpErrorView)
    requires
        a.document() == b.document(),
    ensures
        a == b,
{
    http_document_round_trip(a);
    http_document_round_trip(b);
}

} // verus!
