//! The structured form of the unified error.

use crate::errors::common::{PoseidonError, PoseidonErrorView};
use crate::errors::http::{HttpError, HttpErrorView, JsonError, JsonErrorView};
use crate::errors::io::{PoseidonErrorKind, PoseidonErrorKindView};
use crate::errors::ssl::{RustlsError, RustlsErrorView};
use crate::structured::http::{http_read_of_document, json_read_of_document};
use crate::structured::io::io_read_of_document;
use crate::structured::ssl::tls_read_of_document;
use crate::structured::{
    after_name, after_name_and_fields, entries_view, first_of_one, has_field, interpret_index,
    interpret_text, put, read_index, read_text, rest_of, starts_with_field, str_equal, Entry,
    EntryView,
};
use vstd::prelude::*;

verus! {

impl PoseidonErrorView {
    /// The name of the variant at this place of the declaration.
    pub open spec fn name_of_rank(rank: int) -> Seq<char> {
        if rank == 0 {
            "MissingEd25519PublicKey"@
        } else if rank == 1 {
            "MissingKeypair"@
        } else if rank == 2 {
            "MissingTxSignature"@
        } else if rank == 3 {
            "HomeDirectoryNotFound"@
        } else if rank == 4 {
            "PathIsNotValidUtf8"@
        } else if rank == 5 {
            "InvalidUtf8"@
        } else if rank == 6 {
            "InvalidBase58Ed25519SecretKey"@
        } else if rank == 7 {
            "InvalidBase58Ed25519PublicKey"@
        } else if rank == 8 {
            "InvalidBase58Ed25519Signature"@
        } else if rank == 9 {
            "RepoCreatePermissionDenied"@
        } else if rank == 10 {
            "RepoAlreadyExists"@
        } else if rank == 11 {
            "IoErr"@
        } else if rank == 12 {
            "InvalidByteToUtf8StringConversion"@
        } else if rank == 13 {
            "InvalidEd25519PublicKeyHex"@
        } else if rank == 14 {
            "InvalidHexCharacter"@
        } else if rank == 15 {
            "OddLength"@
        } else if rank == 16 {
            "InvalidStringLength"@
        } else if rank == 17 {
            "SledCollectionNotFound"@
        } else if rank == 18 {
            "SledUnsupported"@
        } else if rank == 19 {
            "SledReportableBug"@
        } else if rank == 20 {
            "SledCorruption"@
        } else if rank == 21 {
            "AccountNotFound"@
        } else if rank == 22 {
            "UnableToDeserializeAccountInfo"@
        } else if rank == 23 {
            "UnableToSerializeTx"@
        } else if rank == 24 {
            "Rustls"@
        } else if rank == 25 {
            "Http"@
        } else if rank == 26 {
            "Json"@
        } else if rank == 27 {
            "SerdeJson"@
        } else if rank == 28 {
            "Unspecified"@
        } else {
            Seq::empty()
        }
    }

    /// The place of the variant of this name, if there is one.
    pub open spec fn rank_of_name(name: Seq<char>) -> Option<int> {
        if exists|rank: int| 0 <= rank < 29 && Self::name_of_rank(rank) == name {
            Some(choose|rank: int| 0 <= rank < 29 && Self::name_of_rank(rank) == name)
        } else {
            None
        }
    }

    /// Whether every list inside is short enough for the number of its
    /// entries to be written down.
    pub open spec fn lists_fit(self) -> bool {
        match self {
            PoseidonErrorView::Rustls(a0) => a0.lists_fit(),
            _ => true,
        }
    }

    /// Reads the fields of `InvalidHexCharacter`, each after its name.
    pub open spec fn read_invalid_hex_character(rest: Seq<EntryView>) -> Option<(Self, int)> {
        if !starts_with_field(rest, "c"@) {
            None
        } else {
            match read_text(rest.skip(1)) {
                Some((a0, n0)) => {
                    if !starts_with_field(rest.skip(1 + n0), "index"@) {
                        None
                    } else {
                        match read_index(rest.skip(1 + n0 + 1)) {
                            Some((a1, n1)) => {
                                Some(
                                    (
                                        PoseidonErrorView::InvalidHexCharacter { c: a0, index: a1 },
                                        1 + n0 + 1 + n1,
                                    ),
                                )
                            },
                            None => None,
                        }
                    }
                },
                None => None,
            }
        }
    }

    /// The structured form: the name of the variant, then the fields, each
    /// field that has a name after that name.
    pub open spec fn document(self) -> Seq<EntryView> {
        match self {
            PoseidonErrorView::InvalidUtf8(a0) => {
                seq![EntryView::Variant(Self::name_of_rank(5))]
                    + seq![EntryView::Text(a0)]
            },
            PoseidonErrorView::IoErr(a0) => {
                seq![EntryView::Variant(Self::name_of_rank(11))]
                    + a0.document()
            },
            PoseidonErrorView::InvalidHexCharacter { c: a0, index: a1 } => {
                seq![EntryView::Variant(Self::name_of_rank(14))]
                    + seq![EntryView::Field("c"@)]
                    + seq![EntryView::Text(a0)]
                    + seq![EntryView::Field("index"@)]
                    + seq![EntryView::Number(a1 as u64)]
            },
            PoseidonErrorView::SledCollectionNotFound(a0) => {
                seq![EntryView::Variant(Self::name_of_rank(17))]
                    + seq![EntryView::Text(a0)]
            },
            PoseidonErrorView::SledUnsupported(a0) => {
                seq![EntryView::Variant(Self::name_of_rank(18))]
                    + seq![EntryView::Text(a0)]
            },
            PoseidonErrorView::SledReportableBug(a0) => {
                seq![EntryView::Variant(Self::name_of_rank(19))]
                    + seq![EntryView::Text(a0)]
            },
            PoseidonErrorView::SledCorruption(a0) => {
                seq![EntryView::Variant(Self::name_of_rank(20))]
                    + seq![EntryView::Text(a0)]
            },
            PoseidonErrorView::Rustls(a0) => {
                seq![EntryView::Variant(Self::name_of_rank(24))]
                    + a0.document()
            },
            PoseidonErrorView::Http(a0) => {
                seq![EntryView::Variant(Self::name_of_rank(25))]
                    + a0.document()
            },
            PoseidonErrorView::Json(a0) => {
                seq![EntryView::Variant(Self::name_of_rank(26))]
                    + a0.document()
            },
            PoseidonErrorView::SerdeJson(a0) => {
                seq![EntryView::Variant(Self::name_of_rank(27))]
                    + seq![EntryView::Text(a0)]
            },
            PoseidonErrorView::Unspecified(a0) => {
                seq![EntryView::Variant(Self::name_of_rank(28))]
                    + seq![EntryView::Text(a0)]
            },
            _ => seq![EntryView::Variant(Self::name_of_rank(self.rank()))],
        }
    }

    /// Reads one value from the front of a document: the value and the count
    /// of entries read, or `None` where no value stands there.
    #[verifier::opaque]
    pub open spec fn read(entries: Seq<EntryView>) -> Option<(Self, int)> {
        if entries.len() == 0 {
            None
        } else {
            let rest = entries.skip(1);
            match entries[0] {
                EntryView::Variant(name) => match Self::rank_of_name(name) {
                    Some(rank) => {
                        if rank == 5 {
                            match read_text(rest) {
                                Some((a0, n0)) => {
                                    Some((PoseidonErrorView::InvalidUtf8(a0), 1 + n0))
                                },
                                None => None,
                            }
                        } else if rank == 11 {
                            match PoseidonErrorKindView::read(rest) {
                                Some((a0, n0)) => Some((PoseidonErrorView::IoErr(a0), 1 + n0)),
                                None => None,
                            }
                        } else if rank == 14 {
                            match Self::read_invalid_hex_character(rest) {
                                Some((value, read)) => Some((value, 1 + read)),
                                None => None,
                            }
                        } else if rank == 17 {
                            match read_text(rest) {
                                Some((a0, n0)) => {
                                    Some((PoseidonErrorView::SledCollectionNotFound(a0), 1 + n0))
                                },
                                None => None,
                            }
                        } else if rank == 18 {
                            match read_text(rest) {
                                Some((a0, n0)) => {
                                    Some((PoseidonErrorView::SledUnsupported(a0), 1 + n0))
                                },
                                None => None,
                            }
                        } else if rank == 19 {
                            match read_text(rest) {
                                Some((a0, n0)) => {
                                    Some((PoseidonErrorView::SledReportableBug(a0), 1 + n0))
                                },
                                None => None,
                            }
                        } else if rank == 20 {
                            match read_text(rest) {
                                Some((a0, n0)) => {
                                    Some((PoseidonErrorView::SledCorruption(a0), 1 + n0))
                                },
                                None => None,
                            }
                        } else if rank == 24 {
                            match RustlsErrorView::read(rest) {
                                Some((a0, n0)) => Some((PoseidonErrorView::Rustls(a0), 1 + n0)),
                                None => None,
                            }
                        } else if rank == 25 {
                            match HttpErrorView::read(rest) {
                                Some((a0, n0)) => Some((PoseidonErrorView::Http(a0), 1 + n0)),
                                None => None,
                            }
                        } else if rank == 26 {
                            match JsonErrorView::read(rest) {
                                Some((a0, n0)) => Some((PoseidonErrorView::Json(a0), 1 + n0)),
                                None => None,
                            }
                        } else if rank == 27 {
                            match read_text(rest) {
                                Some((a0, n0)) => Some((PoseidonErrorView::SerdeJson(a0), 1 + n0)),
                                None => None,
                            }
                        } else if rank == 28 {
                            match read_text(rest) {
                                Some((a0, n0)) => {
                                    Some((PoseidonErrorView::Unspecified(a0), 1 + n0))
                                },
                                None => None,
                            }
                        } else {
                            match Self::unit_of_rank(rank) {
                                Some(value) => Some((value, 1)),
                                None => None,
                            }
                        }
                    },
                    None => None,
                },
                _ => None,
            }
        }
    }
}

/// No two errors have the same name.
pub proof fn error_names_are_distinct()
    ensures
        forall|a: int, b: int|
            0 <= a < 29 && 0 <= b < 29 && a != b ==> #[trigger] PoseidonErrorView::name_of_rank(
                a,
            ) != #[trigger] PoseidonErrorView::name_of_rank(b),
{
    reveal_strlit("MissingEd25519PublicKey");
    assert("MissingEd25519PublicKey"@.len() == 23
        && "MissingEd25519PublicKey"@[0] == 'M'
        && "MissingEd25519PublicKey"@[7] == 'E'
        && "MissingEd25519PublicKey"@[21] == 'e');
    reveal_strlit("MissingKeypair");
    assert("MissingKeypair"@.len() == 14
        && "MissingKeypair"@[0] == 'M'
        && "MissingKeypair"@[7] == 'K');
    reveal_strlit("MissingTxSignature");
    assert("MissingTxSignature"@.len() == 18
        && "MissingTxSignature"@[0] == 'M'
        && "MissingTxSignature"@[7] == 'T');
    reveal_strlit("HomeDirectoryNotFound");
    assert("HomeDirectoryNotFound"@.len() == 21
        && "HomeDirectoryNotFound"@[0] == 'H'
        && "HomeDirectoryNotFound"@[7] == 'e');
    reveal_strlit("PathIsNotValidUtf8");
    assert("PathIsNotValidUtf8"@.len() == 18
        && "PathIsNotValidUtf8"@[0] == 'P'
        && "PathIsNotValidUtf8"@[7] == 'o');
    reveal_strlit("InvalidUtf8");
    assert("InvalidUtf8"@.len() == 11 && "InvalidUtf8"@[0] == 'I' && "InvalidUtf8"@[7] == 'U');
    reveal_strlit("InvalidBase58Ed25519SecretKey");
    assert("InvalidBase58Ed25519SecretKey"@.len() == 29
        && "InvalidBase58Ed25519SecretKey"@[0] == 'I'
        && "InvalidBase58Ed25519SecretKey"@[7] == 'B'
        && "InvalidBase58Ed25519SecretKey"@[21] == 'e');
    reveal_strlit("InvalidBase58Ed25519PublicKey");
    assert("InvalidBase58Ed25519PublicKey"@.len() == 29
        && "InvalidBase58Ed25519PublicKey"@[0] == 'I'
        && "InvalidBase58Ed25519PublicKey"@[7] == 'B'
        && "InvalidBase58Ed25519PublicKey"@[21] == 'u');
    reveal_strlit("InvalidBase58Ed25519Signature");
    assert("InvalidBase58Ed25519Signature"@.len() == 29
        && "InvalidBase58Ed25519Signature"@[0] == 'I'
        && "InvalidBase58Ed25519Signature"@[7] == 'B'
        && "InvalidBase58Ed25519Signature"@[21] == 'i');
    reveal_strlit("RepoCreatePermissionDenied");
    assert("RepoCreatePermissionDenied"@.len() == 26
        && "RepoCreatePermissionDenied"@[0] == 'R'
        && "RepoCreatePermissionDenied"@[7] == 'a'
        && "RepoCreatePermissionDenied"@[21] == 'e');
    reveal_strlit("RepoAlreadyExists");
    assert("RepoAlreadyExists"@.len() == 17
        && "RepoAlreadyExists"@[0] == 'R'
        && "RepoAlreadyExists"@[7] == 'e');
    reveal_strlit("IoErr");
    assert("IoErr"@.len() == 5 && "IoErr"@[0] == 'I');
    reveal_strlit("InvalidByteToUtf8StringConversion");
    assert("InvalidByteToUtf8StringConversion"@.len() == 33
        && "InvalidByteToUtf8StringConversion"@[0] == 'I'
        && "InvalidByteToUtf8StringConversion"@[7] == 'B'
        && "InvalidByteToUtf8StringConversion"@[21] == 'n');
    reveal_strlit("InvalidEd25519PublicKeyHex");
    assert("InvalidEd25519PublicKeyHex"@.len() == 26
        && "InvalidEd25519PublicKeyHex"@[0] == 'I'
        && "InvalidEd25519PublicKeyHex"@[7] == 'E'
        && "InvalidEd25519PublicKeyHex"@[21] == 'e');
    reveal_strlit("InvalidHexCharacter");
    assert("InvalidHexCharacter"@.len() == 19
        && "InvalidHexCharacter"@[0] == 'I'
        && "InvalidHexCharacter"@[7] == 'H');
    reveal_strlit("OddLength");
    assert("OddLength"@.len() == 9 && "OddLength"@[0] == 'O' && "OddLength"@[7] == 't');
    reveal_strlit("InvalidStringLength");
    assert("InvalidStringLength"@.len() == 19
        && "InvalidStringLength"@[0] == 'I'
        && "InvalidStringLength"@[7] == 'S');
    reveal_strlit("SledCollectionNotFound");
    assert("SledCollectionNotFound"@.len() == 22
        && "SledCollectionNotFound"@[0] == 'S'
        && "SledCollectionNotFound"@[7] == 'l'
        && "SledCollectionNotFound"@[21] == 'd');
    reveal_strlit("SledUnsupported");
    assert("SledUnsupported"@.len() == 15
        && "SledUnsupported"@[0] == 'S'
        && "SledUnsupported"@[7] == 'u');
    reveal_strlit("SledReportableBug");
    assert("SledReportableBug"@.len() == 17
        && "SledReportableBug"@[0] == 'S'
        && "SledReportableBug"@[7] == 'o');
    reveal_strlit("SledCorruption");
    assert("SledCorruption"@.len() == 14
        && "SledCorruption"@[0] == 'S'
        && "SledCorruption"@[7] == 'r');
    reveal_strlit("AccountNotFound");
    assert("AccountNotFound"@.len() == 15
        && "AccountNotFound"@[0] == 'A'
        && "AccountNotFound"@[7] == 'N');
    reveal_strlit("UnableToDeserializeAccountInfo");
    assert("UnableToDeserializeAccountInfo"@.len() == 30
        && "UnableToDeserializeAccountInfo"@[0] == 'U'
        && "UnableToDeserializeAccountInfo"@[7] == 'o'
        && "UnableToDeserializeAccountInfo"@[21] == 'c');
    reveal_strlit("UnableToSerializeTx");
    assert("UnableToSerializeTx"@.len() == 19
        && "UnableToSerializeTx"@[0] == 'U'
        && "UnableToSerializeTx"@[7] == 'o');
    reveal_strlit("Rustls");
    assert("Rustls"@.len() == 6 && "Rustls"@[0] == 'R');
    reveal_strlit("Http");
    assert("Http"@.len() == 4 && "Http"@[0] == 'H');
    reveal_strlit("Json");
    assert("Json"@.len() == 4 && "Json"@[0] == 'J');
    reveal_strlit("SerdeJson");
    assert("SerdeJson"@.len() == 9 && "SerdeJson"@[0] == 'S' && "SerdeJson"@[7] == 'o');
    reveal_strlit("Unspecified");
    assert("Unspecified"@.len() == 11 && "Unspecified"@[0] == 'U' && "Unspecified"@[7] == 'f');
}

/// The name of a variant leads back to its place.
pub proof fn error_rank_of_its_name(rank: int)
    requires
        0 <= rank < 29,
    ensures
        PoseidonErrorView::rank_of_name(PoseidonErrorView::name_of_rank(rank)) == Some(rank),
{
    error_names_are_distinct();
}

impl PoseidonError {
    /// The name of the variant.
    pub fn variant_name(&self) -> (name: &'static str)
        ensures
            name@ == PoseidonErrorView::name_of_rank(self@.rank()),
    {
        match self.rank_value() {
            0 => "MissingEd25519PublicKey",
            1 => "MissingKeypair",
            2 => "MissingTxSignature",
            3 => "HomeDirectoryNotFound",
            4 => "PathIsNotValidUtf8",
            5 => "InvalidUtf8",
            6 => "InvalidBase58Ed25519SecretKey",
            7 => "InvalidBase58Ed25519PublicKey",
            8 => "InvalidBase58Ed25519Signature",
            9 => "RepoCreatePermissionDenied",
            10 => "RepoAlreadyExists",
            11 => "IoErr",
            12 => "InvalidByteToUtf8StringConversion",
            13 => "InvalidEd25519PublicKeyHex",
            14 => "InvalidHexCharacter",
            15 => "OddLength",
            16 => "InvalidStringLength",
            17 => "SledCollectionNotFound",
            18 => "SledUnsupported",
            19 => "SledReportableBug",
            20 => "SledCorruption",
            21 => "AccountNotFound",
            22 => "UnableToDeserializeAccountInfo",
            23 => "UnableToSerializeTx",
            24 => "Rustls",
            25 => "Http",
            26 => "Json",
            27 => "SerdeJson",
            _ => "Unspecified",
        }
    }

    /// The place of the variant of this name, if there is one.
    pub fn rank_of_name_value(name: &str) -> (r: Option<u8>)
        ensures
            r == match PoseidonErrorView::rank_of_name(name@) {
                Some(rank) => Some(rank as u8),
                None => None,
            },
    {
        proof {
            error_names_are_distinct();
        }
        if str_equal(name, "MissingEd25519PublicKey") {
            assert(PoseidonErrorView::name_of_rank(0) == name@);
            Some(0)
        }         else if str_equal(name, "MissingKeypair") {
            assert(PoseidonErrorView::name_of_rank(1) == name@);
            Some(1)
        }         else if str_equal(name, "MissingTxSignature") {
            assert(PoseidonErrorView::name_of_rank(2) == name@);
            Some(2)
        }         else if str_equal(name, "HomeDirectoryNotFound") {
            assert(PoseidonErrorView::name_of_rank(3) == name@);
            Some(3)
        }         else if str_equal(name, "PathIsNotValidUtf8") {
            assert(PoseidonErrorView::name_of_rank(4) == name@);
            Some(4)
        }         else if str_equal(name, "InvalidUtf8") {
            assert(PoseidonErrorView::name_of_rank(5) == name@);
            Some(5)
        }         else if str_equal(name, "InvalidBase58Ed25519SecretKey") {
            assert(PoseidonErrorView::name_of_rank(6) == name@);
            Some(6)
        }         else if str_equal(name, "InvalidBase58Ed25519PublicKey") {
            assert(PoseidonErrorView::name_of_rank(7) == name@);
            Some(7)
        }         else if str_equal(name, "InvalidBase58Ed25519Signature") {
            assert(PoseidonErrorView::name_of_rank(8) == name@);
            Some(8)
        }         else if str_equal(name, "RepoCreatePermissionDenied") {
            assert(PoseidonErrorView::name_of_rank(9) == name@);
            Some(9)
        }         else if str_equal(name, "RepoAlreadyExists") {
            assert(PoseidonErrorView::name_of_rank(10) == name@);
            Some(10)
        }         else if str_equal(name, "IoErr") {
            assert(PoseidonErrorView::name_of_rank(11) == name@);
            Some(11)
        }         else if str_equal(name, "InvalidByteToUtf8StringConversion") {
            assert(PoseidonErrorView::name_of_rank(12) == name@);
            Some(12)
        }         else if str_equal(name, "InvalidEd25519PublicKeyHex") {
            assert(PoseidonErrorView::name_of_rank(13) == name@);
            Some(13)
        }         else if str_equal(name, "InvalidHexCharacter") {
            assert(PoseidonErrorView::name_of_rank(14) == name@);
            Some(14)
        }         else if str_equal(name, "OddLength") {
            assert(PoseidonErrorView::name_of_rank(15) == name@);
            Some(15)
        }         else if str_equal(name, "InvalidStringLength") {
            assert(PoseidonErrorView::name_of_rank(16) == name@);
            Some(16)
        }         else if str_equal(name, "SledCollectionNotFound") {
            assert(PoseidonErrorView::name_of_rank(17) == name@);
            Some(17)
        }         else if str_equal(name, "SledUnsupported") {
            assert(PoseidonErrorView::name_of_rank(18) == name@);
            Some(18)
        }         else if str_equal(name, "SledReportableBug") {
            assert(PoseidonErrorView::name_of_rank(19) == name@);
            Some(19)
        }         else if str_equal(name, "SledCorruption") {
            assert(PoseidonErrorView::name_of_rank(20) == name@);
            Some(20)
        }         else if str_equal(name, "AccountNotFound") {
            assert(PoseidonErrorView::name_of_rank(21) == name@);
            Some(21)
        }         else if str_equal(name, "UnableToDeserializeAccountInfo") {
            assert(PoseidonErrorView::name_of_rank(22) == name@);
            Some(22)
        }         else if str_equal(name, "UnableToSerializeTx") {
            assert(PoseidonErrorView::name_of_rank(23) == name@);
            Some(23)
        }         else if str_equal(name, "Rustls") {
            assert(PoseidonErrorView::name_of_rank(24) == name@);
            Some(24)
        }         else if str_equal(name, "Http") {
            assert(PoseidonErrorView::name_of_rank(25) == name@);
            Some(25)
        }         else if str_equal(name, "Json") {
            assert(PoseidonErrorView::name_of_rank(26) == name@);
            Some(26)
        }         else if str_equal(name, "SerdeJson") {
            assert(PoseidonErrorView::name_of_rank(27) == name@);
            Some(27)
        }         else if str_equal(name, "Unspecified") {
            assert(PoseidonErrorView::name_of_rank(28) == name@);
            Some(28)
        } else {
            None
        }
    }

    /// Reads the fields of `InvalidHexCharacter`, each after its name.
    fn interpret_invalid_hex_character(rest: &[Entry]) -> (r: Option<(Self, usize)>)
        ensures
            match r {
                Some((value, read)) => {
                    &&& PoseidonErrorView::read_invalid_hex_character(entries_view(rest@))
                        == Some((value@, read as int))
                    &&& read <= rest.len()
                },
                None => PoseidonErrorView::read_invalid_hex_character(entries_view(rest@)) is None,
            },
    {
        if !has_field(rest, "c") {
            None
        } else {
            let part0 = rest_of(rest, 1);
            match interpret_text(part0) {
                Some((x0, n0)) => {
                    let part1 = rest_of(rest, 1 + n0);
                    if !has_field(part1, "index") {
                        None
                    } else {
                        let part2 = rest_of(rest, 1 + n0 + 1);
                        match interpret_index(part2) {
                            Some((x1, n1)) => {
                                Some(
                                    (
                                        PoseidonError::InvalidHexCharacter { c: x0, index: x1 },
                                        1 + n0 + 1 + n1,
                                    ),
                                )
                            },
                            None => None,
                        }
                    }
                },
                None => None,
            }
        }
    }

    /// Appends the structured form of `self`.
    pub fn describe(&self, out: &mut Vec<Entry>)
        ensures
            entries_view(final(out)@) == entries_view(old(out)@) + self@.document(),
            self@.lists_fit(),
    {
        put(Entry::Variant(self.variant_name().to_owned()), out);
        match self {
            PoseidonError::InvalidUtf8(x0) => {
                put(Entry::Text(x0.clone()), out);
            },
            PoseidonError::IoErr(x0) => {
                x0.describe(out);
            },
            PoseidonError::InvalidHexCharacter { c: x0, index: x1 } => {
                put(Entry::Field("c".to_owned()), out);
                put(Entry::Text(x0.clone()), out);
                put(Entry::Field("index".to_owned()), out);
                put(Entry::Number(*x1 as u64), out);
            },
            PoseidonError::SledCollectionNotFound(x0) => {
                put(Entry::Text(x0.clone()), out);
            },
            PoseidonError::SledUnsupported(x0) => {
                put(Entry::Text(x0.clone()), out);
            },
            PoseidonError::SledReportableBug(x0) => {
                put(Entry::Text(x0.clone()), out);
            },
            PoseidonError::SledCorruption(x0) => {
                put(Entry::Text(x0.clone()), out);
            },
            PoseidonError::Rustls(x0) => {
                x0.describe(out);
            },
            PoseidonError::Http(x0) => {
                x0.describe(out);
            },
            PoseidonError::Json(x0) => {
                x0.describe(out);
            },
            PoseidonError::SerdeJson(x0) => {
                put(Entry::Text(x0.clone()), out);
            },
            PoseidonError::Unspecified(x0) => {
                put(Entry::Text(x0.clone()), out);
            },
            _ => {},
        }
        assert(entries_view(out@) =~= entries_view(old(out)@) + self@.document());
    }

    /// Reads one value from the front of a document: the value and the count
    /// of entries read, or `None` where no value stands there.
    pub fn interpret(entries: &[Entry]) -> (r: Option<(Self, usize)>)
        ensures
            match r {
                Some((value, read)) => PoseidonErrorView::read(entries_view(entries@)) == Some(
                    (value@, read as int),
                ) && read <= entries.len(),
                None => PoseidonErrorView::read(entries_view(entries@)) is None,
            },
    {
        proof {
            reveal(PoseidonErrorView::read);
        }
        if entries.len() == 0 {
            return None;
        }
        let rank = match &entries[0] {
            Entry::Variant(name) => match Self::rank_of_name_value(name.as_str()) {
                Some(rank) => rank,
                None => {
                    return None;
                },
            },
            _ => {
                return None;
            },
        };
        let rest = rest_of(entries, 1);
        if rank == 5 {
            match interpret_text(rest) {
                Some((x0, n0)) => Some((PoseidonError::InvalidUtf8(x0), 1 + n0)),
                None => None,
            }
        } else if rank == 11 {
            match PoseidonErrorKind::interpret(rest) {
                Some((x0, n0)) => Some((PoseidonError::IoErr(x0), 1 + n0)),
                None => None,
            }
        } else if rank == 14 {
            match Self::interpret_invalid_hex_character(rest) {
                Some((value, read)) => Some((value, 1 + read)),
                None => None,
            }
        } else if rank == 17 {
            match interpret_text(rest) {
                Some((x0, n0)) => Some((PoseidonError::SledCollectionNotFound(x0), 1 + n0)),
                None => None,
            }
        } else if rank == 18 {
            match interpret_text(rest) {
                Some((x0, n0)) => Some((PoseidonError::SledUnsupported(x0), 1 + n0)),
                None => None,
            }
        } else if rank == 19 {
            match interpret_text(rest) {
                Some((x0, n0)) => Some((PoseidonError::SledReportableBug(x0), 1 + n0)),
                None => None,
            }
        } else if rank == 20 {
            match interpret_text(rest) {
                Some((x0, n0)) => Some((PoseidonError::SledCorruption(x0), 1 + n0)),
                None => None,
            }
        } else if rank == 24 {
            match RustlsError::interpret(rest) {
                Some((x0, n0)) => Some((PoseidonError::Rustls(x0), 1 + n0)),
                None => None,
            }
        } else if rank == 25 {
            match HttpError::interpret(rest) {
                Some((x0, n0)) => Some((PoseidonError::Http(x0), 1 + n0)),
                None => None,
            }
        } else if rank == 26 {
            match JsonError::interpret(rest) {
                Some((x0, n0)) => Some((PoseidonError::Json(x0), 1 + n0)),
                None => None,
            }
        } else if rank == 27 {
            match interpret_text(rest) {
                Some((x0, n0)) => Some((PoseidonError::SerdeJson(x0), 1 + n0)),
                None => None,
            }
        } else if rank == 28 {
            match interpret_text(rest) {
                Some((x0, n0)) => Some((PoseidonError::Unspecified(x0), 1 + n0)),
                None => None,
            }
        } else {
            match Self::unit_of_rank_value(rank) {
                Some(value) => Some((value, 1)),
                None => None,
            }
        }
    }

    /// The structured form of `self`.
    pub fn to_document(&self) -> (document: Vec<Entry>)
        ensures
            entries_view(document@) == self@.document(),
            self@.lists_fit(),
    {
        let mut document: Vec<Entry> = Vec::new();
        self.describe(&mut document);
        assert(entries_view(document@) =~= self@.document());
        document
    }

    /// The value whose structured form the document is, all of it; `None`
    /// where the document is no structured form, or more entries follow one.
    pub fn from_document(entries: &[Entry]) -> (r: Option<Self>)
        ensures
            match r {
                Some(value) => PoseidonErrorView::read(entries_view(entries@)) == Some(
                    (value@, entries@.len() as int),
                ),
                None => {
                    !(PoseidonErrorView::read(entries_view(entries@)) matches Some((_, read))
                        && read == entries@.len())
                },
            },
    {
        match Self::interpret(entries) {
            Some((value, read)) => {
                if read == entries.len() {
                    Some(value)
                } else {
                    None
                }
            },
            None => None,
        }
    }
}

/// An error is read back from its document, whatever follows.
pub proof fn error_read_of_document(value: PoseidonErrorView, rest: Seq<EntryView>)
    requires
        value.lists_fit(),
    ensures
        PoseidonErrorView::read(value.document() + rest) == Some(
            (value, value.document().len() as int),
        ),
{
    reveal(PoseidonErrorView::read);
    let tag = EntryView::Variant(PoseidonErrorView::name_of_rank(value.rank()));
    error_rank_of_its_name(value.rank());
    match value {
        PoseidonErrorView::InvalidUtf8(a0) => {
            after_name(tag, seq![EntryView::Text(a0)], rest);
            first_of_one(EntryView::Text(a0), rest);
        },
        PoseidonErrorView::IoErr(a0) => {
            after_name(tag, a0.document(), rest);
            io_read_of_document(a0, rest);
        },
        PoseidonErrorView::InvalidHexCharacter { c: a0, index: a1 } => {
            after_name_and_fields(
                tag,
                EntryView::Field("c"@),
                seq![EntryView::Text(a0)],
                EntryView::Field("index"@),
                seq![EntryView::Number(a1 as u64)],
                rest,
            );
            first_of_one(
                EntryView::Text(a0),
                seq![EntryView::Field("index"@)] + (seq![EntryView::Number(a1 as u64)] + rest),
            );
            first_of_one(EntryView::Number(a1 as u64), rest);
        },
        PoseidonErrorView::SledCollectionNotFound(a0) => {
            after_name(tag, seq![EntryView::Text(a0)], rest);
            first_of_one(EntryView::Text(a0), rest);
        },
        PoseidonErrorView::SledUnsupported(a0) => {
            after_name(tag, seq![EntryView::Text(a0)], rest);
            first_of_one(EntryView::Text(a0), rest);
        },
        PoseidonErrorView::SledReportableBug(a0) => {
            after_name(tag, seq![EntryView::Text(a0)], rest);
            first_of_one(EntryView::Text(a0), rest);
        },
        PoseidonErrorView::SledCorruption(a0) => {
            after_name(tag, seq![EntryView::Text(a0)], rest);
            first_of_one(EntryView::Text(a0), rest);
        },
        PoseidonErrorView::Rustls(a0) => {
            after_name(tag, a0.document(), rest);
            tls_read_of_document(a0, rest);
        },
        PoseidonErrorView::Http(a0) => {
            after_name(tag, a0.document(), rest);
            http_read_of_document(a0, rest);
        },
        PoseidonErrorView::Json(a0) => {
            after_name(tag, a0.document(), rest);
            json_read_of_document(a0, rest);
        },
        PoseidonErrorView::SerdeJson(a0) => {
            after_name(tag, seq![EntryView::Text(a0)], rest);
            first_of_one(EntryView::Text(a0), rest);
        },
        PoseidonErrorView::Unspecified(a0) => {
            after_name(tag, seq![EntryView::Text(a0)], rest);
            first_of_one(EntryView::Text(a0), rest);
        },
        _ => {
            after_name(tag, Seq::empty(), rest);
        },
    }
}

/// Reading the document of an error gives the value back, and reads all of it.
pub proof fn error_document_round_trip(value: PoseidonErrorView)
    requires
        value.lists_fit(),
    ensures
        PoseidonErrorView::read(value.document()) == Some(
            (value, value.document().len() as int),
        ),
{
    error_read_of_document(value, Seq::empty());
    assert(value.document() + Seq::<EntryView>::empty() =~= value.document());
}

/// Two values with the same document are the same value.
pub proof fn error_document_is_injective(a: PoseidonErrorView, b: PoseidonErrorView)
    requires
        a.lists_fit(),
        b.lists_fit(),
        a.document() == b.document(),
    ensures
        a == b,
{
    error_document_round_trip(a);
    error_document_round_trip(b);
}

} // verus!
