//! The structured form of the secure-channel category and of its vocabulary.

use crate::errors::ssl::{
    AlertDescription, ContentType, HandshakeType, RustlsError, RustlsErrorView, SctError,
};
use crate::structured::{
    after_name, after_name_and_fields, describe_list, entries_view, first_of_one, has_field,
    interpret_list, interpret_octet, interpret_text, list_document, put, read_list,
    read_list_of_document, read_octet, read_text, rest_of, starts_with_field, str_equal,
    Described, Entry, EntryView,
};
use vstd::prelude::*;

verus! {

impl ContentType {
    /// The name of the variant at this place of the declaration.
    pub open spec fn name_of_rank(rank: int) -> Seq<char> {
        if rank == 0 {
            "ChangeCipherSpec"@
        } else if rank == 1 {
            "Alert"@
        } else if rank == 2 {
            "Handshake"@
        } else if rank == 3 {
            "ApplicationData"@
        } else if rank == 4 {
            "Heartbeat"@
        } else if rank == 5 {
            "Unknown"@
        } else {
            Seq::empty()
        }
    }

    /// The place of the variant of this name, if there is one.
    pub open spec fn rank_of_name(name: Seq<char>) -> Option<int> {
        if exists|rank: int| 0 <= rank < 6 && Self::name_of_rank(rank) == name {
            Some(choose|rank: int| 0 <= rank < 6 && Self::name_of_rank(rank) == name)
        } else {
            None
        }
    }

    /// The name of the variant.
    pub fn variant_name(&self) -> (name: &'static str)
        ensures
            name@ == ContentType::name_of_rank(self.rank()),
    {
        match self.rank_value() {
            0 => "ChangeCipherSpec",
            1 => "Alert",
            2 => "Handshake",
            3 => "ApplicationData",
            4 => "Heartbeat",
            _ => "Unknown",
        }
    }

    /// The place of the variant of this name, if there is one.
    pub fn rank_of_name_value(name: &str) -> (r: Option<u8>)
        ensures
            r == match ContentType::rank_of_name(name@) {
                Some(rank) => Some(rank as u8),
                None => None,
            },
    {
        proof {
            content_type_names_are_distinct();
        }
        if str_equal(name, "ChangeCipherSpec") {
            assert(ContentType::name_of_rank(0) == name@);
            Some(0)
        }         else if str_equal(name, "Alert") {
            assert(ContentType::name_of_rank(1) == name@);
            Some(1)
        }         else if str_equal(name, "Handshake") {
            assert(ContentType::name_of_rank(2) == name@);
            Some(2)
        }         else if str_equal(name, "ApplicationData") {
            assert(ContentType::name_of_rank(3) == name@);
            Some(3)
        }         else if str_equal(name, "Heartbeat") {
            assert(ContentType::name_of_rank(4) == name@);
            Some(4)
        }         else if str_equal(name, "Unknown") {
            assert(ContentType::name_of_rank(5) == name@);
            Some(5)
        } else {
            None
        }
    }
}

/// No two record types have the same name.
pub proof fn content_type_names_are_distinct()
    ensures
        forall|a: int, b: int|
            0 <= a < 6 && 0 <= b < 6 && a != b ==> #[trigger] ContentType::name_of_rank(
                a,
            ) != #[trigger] ContentType::name_of_rank(b),
{
    reveal_strlit("ChangeCipherSpec");
    assert("ChangeCipherSpec"@.len() == 16 && "ChangeCipherSpec"@[1] == 'h');
    reveal_strlit("Alert");
    assert("Alert"@.len() == 5 && "Alert"@[1] == 'l');
    reveal_strlit("Handshake");
    assert("Handshake"@.len() == 9 && "Handshake"@[1] == 'a');
    reveal_strlit("ApplicationData");
    assert("ApplicationData"@.len() == 15 && "ApplicationData"@[1] == 'p');
    reveal_strlit("Heartbeat");
    assert("Heartbeat"@.len() == 9 && "Heartbeat"@[1] == 'e');
    reveal_strlit("Unknown");
    assert("Unknown"@.len() == 7 && "Unknown"@[1] == 'n');
}

/// The name of a variant leads back to its place.
pub proof fn content_type_rank_of_its_name(rank: int)
    requires
        0 <= rank < 6,
    ensures
        ContentType::rank_of_name(ContentType::name_of_rank(rank)) == Some(rank),
{
    content_type_names_are_distinct();
}

impl Described for ContentType {
    /// The name of the variant; after `Unknown`, its code.
    open spec fn document(self) -> Seq<EntryView> {
        match self {
            ContentType::Unknown(code) => seq![
                EntryView::Variant(Self::name_of_rank(5)),
                EntryView::Number(code as u64),
            ],
            _ => seq![EntryView::Variant(Self::name_of_rank(self.rank()))],
        }
    }

    open spec fn read(entries: Seq<EntryView>) -> Option<(Self, int)> {
        if entries.len() == 0 {
            None
        } else {
            match entries[0] {
                EntryView::Variant(name) => match Self::rank_of_name(name) {
                    Some(rank) => if rank == 5 {
                        match read_octet(entries.skip(1)) {
                            Some((code, read)) => Some((ContentType::Unknown(code), 1 + read)),
                            None => None,
                        }
                    } else {
                        match Self::of_rank(rank) {
                            Some(value) => Some((value, 1)),
                            None => None,
                        }
                    },
                    None => None,
                },
                _ => None,
            }
        }
    }

    proof fn read_of_document(value: Self, rest: Seq<EntryView>) {
        reveal(ContentType::of_rank);
        let all = value.document() + rest;
        assert(all[0] == value.document()[0]);
        content_type_rank_of_its_name(value.rank());
        if let ContentType::Unknown(code) = value {
            assert(all.skip(1)[0] == EntryView::Number(code as u64));
        }
    }

    fn describe(&self, out: &mut Vec<Entry>) {
        put(Entry::Variant(self.variant_name().to_owned()), out);
        if let ContentType::Unknown(code) = self {
            put(Entry::Number(*code as u64), out);
        }
        assert(entries_view(out@) =~= entries_view(old(out)@) + self.document());
    }

    fn interpret(entries: &[Entry]) -> (r: Option<(Self, usize)>) {
        if entries.len() == 0 {
            return None;
        }
        let rank = match &entries[0] {
            Entry::Variant(name) => match Self::rank_of_name_value(name.as_str()) {
                Some(rank) => rank,
                None => {
                    return None;
                },
            },
            _ => {
                return None;
            },
        };
        if rank == 5 {
            match interpret_octet(rest_of(entries, 1)) {
                Some((code, read)) => Some((ContentType::Unknown(code), 1 + read)),
                None => None,
            }
        } else {
            match Self::of_rank_value(rank) {
                Some(value) => Some((value, 1)),
                None => None,
            }
        }
    }
}

impl HandshakeType {
    /// The name of the variant at this place of the declaration.
    pub open spec fn name_of_rank(rank: int) -> Seq<char> {
        if rank == 0 {
            "HelloRequest"@
        } else if rank == 1 {
            "ClientHello"@
        } else if rank == 2 {
            "ServerHello"@
        } else if rank == 3 {
            "NewSessionTicket"@
        } else if rank == 4 {
            "EndOfEarlyData"@
        } else if rank == 5 {
            "HelloRetryRequest"@
        } else if rank == 6 {
            "EncryptedExtensions"@
        } else if rank == 7 {
            "Certificate"@
        } else if rank == 8 {
            "ServerKeyExchange"@
        } else if rank == 9 {
            "CertificateRequest"@
        } else if rank == 10 {
            "ServerHelloDone"@
        } else if rank == 11 {
            "CertificateVerify"@
        } else if rank == 12 {
            "ClientKeyExchange"@
        } else if rank == 13 {
            "Finished"@
        } else if rank == 14 {
            "CertificateURL"@
        } else if rank == 15 {
            "CertificateStatus"@
        } else if rank == 16 {
            "KeyUpdate"@
        } else if rank == 17 {
            "MessageHash"@
        } else if rank == 18 {
            "Unknown"@
        } else {
            Seq::empty()
        }
    }

    /// The place of the variant of this name, if there is one.
    pub open spec fn rank_of_name(name: Seq<char>) -> Option<int> {
        if exists|rank: int| 0 <= rank < 19 && Self::name_of_rank(rank) == name {
            Some(choose|rank: int| 0 <= rank < 19 && Self::name_of_rank(rank) == name)
        } else {
            None
        }
    }

    /// The name of the variant.
    pub fn variant_name(&self) -> (name: &'static str)
        ensures
            name@ == HandshakeType::name_of_rank(self.rank()),
    {
        match self.rank_value() {
            0 => "HelloRequest",
            1 => "ClientHello",
            2 => "ServerHello",
            3 => "NewSessionTicket",
            4 => "EndOfEarlyData",
            5 => "HelloRetryRequest",
            6 => "EncryptedExtensions",
            7 => "Certificate",
            8 => "ServerKeyExchange",
            9 => "CertificateRequest",
            10 => "ServerHelloDone",
            11 => "CertificateVerify",
            12 => "ClientKeyExchange",
            13 => "Finished",
            14 => "CertificateURL",
            15 => "CertificateStatus",
            16 => "KeyUpdate",
            17 => "MessageHash",
            _ => "Unknown",
        }
    }

    /// The place of the variant of this name, if there is one.
    pub fn rank_of_name_value(name: &str) -> (r: Option<u8>)
        ensures
            r == match HandshakeType::rank_of_name(name@) {
                Some(rank) => Some(rank as u8),
                None => None,
            },
    {
        proof {
            handshake_type_names_are_distinct();
        }
        if str_equal(name, "HelloRequest") {
            assert(HandshakeType::name_of_rank(0) == name@);
            Some(0)
        }         else if str_equal(name, "ClientHello") {
            assert(HandshakeType::name_of_rank(1) == name@);
            Some(1)
        }         else if str_equal(name, "ServerHello") {
            assert(HandshakeType::name_of_rank(2) == name@);
            Some(2)
        }         else if str_equal(name, "NewSessionTicket") {
            assert(HandshakeType::name_of_rank(3) == name@);
            Some(3)
        }         else if str_equal(name, "EndOfEarlyData") {
            assert(HandshakeType::name_of_rank(4) == name@);
            Some(4)
        }         else if str_equal(name, "HelloRetryRequest") {
            assert(HandshakeType::name_of_rank(5) == name@);
            Some(5)
        }         else if str_equal(name, "EncryptedExtensions") {
            assert(HandshakeType::name_of_rank(6) == name@);
            Some(6)
        }         else if str_equal(name, "Certificate") {
            assert(HandshakeType::name_of_rank(7) == name@);
            Some(7)
        }         else if str_equal(name, "ServerKeyExchange") {
            assert(HandshakeType::name_of_rank(8) == name@);
            Some(8)
        }         else if str_equal(name, "CertificateRequest") {
            assert(HandshakeType::name_of_rank(9) == name@);
            Some(9)
        }         else if str_equal(name, "ServerHelloDone") {
            assert(HandshakeType::name_of_rank(10) == name@);
            Some(10)
        }         else if str_equal(name, "CertificateVerify") {
            assert(HandshakeType::name_of_rank(11) == name@);
            Some(11)
        }         else if str_equal(name, "ClientKeyExchange") {
            assert(HandshakeType::name_of_rank(12) == name@);
            Some(12)
        }         else if str_equal(name, "Finished") {
            assert(HandshakeType::name_of_rank(13) == name@);
            Some(13)
        }         else if str_equal(name, "CertificateURL") {
            assert(HandshakeType::name_of_rank(14) == name@);
            Some(14)
        }         else if str_equal(name, "CertificateStatus") {
            assert(HandshakeType::name_of_rank(15) == name@);
            Some(15)
        }         else if str_equal(name, "KeyUpdate") {
            assert(HandshakeType::name_of_rank(16) == name@);
            Some(16)
        }         else if str_equal(name, "MessageHash") {
            assert(HandshakeType::name_of_rank(17) == name@);
            Some(17)
        }         else if str_equal(name, "Unknown") {
            assert(HandshakeType::name_of_rank(18) == name@);
            Some(18)
        } else {
            None
        }
    }
}

/// No two message types have the same name.
pub proof fn handshake_type_names_are_distinct()
    ensures
        forall|a: int, b: int|
            0 <= a < 19 && 0 <= b < 19 && a != b ==> #[trigger] HandshakeType::name_of_rank(
                a,
            ) != #[trigger] HandshakeType::name_of_rank(b),
{
    reveal_strlit("HelloRequest");
    assert("HelloRequest"@.len() == 12 && "HelloRequest"@[3] == 'l' && "HelloRequest"@[11] == 't');
    reveal_strlit("ClientHello");
    assert("ClientHello"@.len() == 11 && "ClientHello"@[3] == 'e');
    reveal_strlit("ServerHello");
    assert("ServerHello"@.len() == 11 && "ServerHello"@[3] == 'v');
    reveal_strlit("NewSessionTicket");
    assert("NewSessionTicket"@.len() == 16
        && "NewSessionTicket"@[3] == 'S'
        && "NewSessionTicket"@[11] == 'i');
    reveal_strlit("EndOfEarlyData");
    assert("EndOfEarlyData"@.len() == 14
        && "EndOfEarlyData"@[3] == 'O'
        && "EndOfEarlyData"@[11] == 'a');
    reveal_strlit("HelloRetryRequest");
    assert("HelloRetryRequest"@.len() == 17
        && "HelloRetryRequest"@[3] == 'l'
        && "HelloRetryRequest"@[11] == 'e');
    reveal_strlit("EncryptedExtensions");
    assert("EncryptedExtensions"@.len() == 19
        && "EncryptedExtensions"@[3] == 'r'
        && "EncryptedExtensions"@[11] == 't');
    reveal_strlit("Certificate");
    assert("Certificate"@.len() == 11 && "Certificate"@[3] == 't');
    reveal_strlit("ServerKeyExchange");
    assert("ServerKeyExchange"@.len() == 17
        && "ServerKeyExchange"@[3] == 'v'
        && "ServerKeyExchange"@[11] == 'c');
    reveal_strlit("CertificateRequest");
    assert("CertificateRequest"@.len() == 18
        && "CertificateRequest"@[3] == 't'
        && "CertificateRequest"@[11] == 'R');
    reveal_strlit("ServerHelloDone");
    assert("ServerHelloDone"@.len() == 15
        && "ServerHelloDone"@[3] == 'v'
        && "ServerHelloDone"@[11] == 'D');
    reveal_strlit("CertificateVerify");
    assert("CertificateVerify"@.len() == 17
        && "CertificateVerify"@[3] == 't'
        && "CertificateVerify"@[11] == 'V');
    reveal_strlit("ClientKeyExchange");
    assert("ClientKeyExchange"@.len() == 17
        && "ClientKeyExchange"@[3] == 'e'
        && "ClientKeyExchange"@[11] == 'c');
    reveal_strlit("Finished");
    assert("Finished"@.len() == 8 && "Finished"@[3] == 'i');
    reveal_strlit("CertificateURL");
    assert("CertificateURL"@.len() == 14
        && "CertificateURL"@[3] == 't'
        && "CertificateURL"@[11] == 'U');
    reveal_strlit("CertificateStatus");
    assert("CertificateStatus"@.len() == 17
        && "CertificateStatus"@[3] == 't'
        && "CertificateStatus"@[11] == 'S');
    reveal_strlit("KeyUpdate");
    assert("KeyUpdate"@.len() == 9 && "KeyUpdate"@[3] == 'U');
    reveal_strlit("MessageHash");
    assert("MessageHash"@.len() == 11 && "MessageHash"@[3] == 's');
    reveal_strlit("Unknown");
    assert("Unknown"@.len() == 7 && "Unknown"@[3] == 'n');
}

/// The name of a variant leads back to its place.
pub proof fn handshake_type_rank_of_its_name(rank: int)
    requires
        0 <= rank < 19,
    ensures
        HandshakeType::rank_of_name(HandshakeType::name_of_rank(rank)) == Some(rank),
{
    handshake_type_names_are_distinct();
}

impl Described for HandshakeType {
    /// The name of the variant; after `Unknown`, its code.
    open spec fn document(self) -> Seq<EntryView> {
        match self {
            HandshakeType::Unknown(code) => seq![
                EntryView::Variant(Self::name_of_rank(18)),
                EntryView::Number(code as u64),
            ],
            _ => seq![EntryView::Variant(Self::name_of_rank(self.rank()))],
        }
    }

    open spec fn read(entries: Seq<EntryView>) -> Option<(Self, int)> {
        if entries.len() == 0 {
            None
        } else {
            match entries[0] {
                EntryView::Variant(name) => match Self::rank_of_name(name) {
                    Some(rank) => if rank == 18 {
                        match read_octet(entries.skip(1)) {
                            Some((code, read)) => Some((HandshakeType::Unknown(code), 1 + read)),
                            None => None,
                        }
                    } else {
                        match Self::of_rank(rank) {
                            Some(value) => Some((value, 1)),
                            None => None,
                        }
                    },
                    None => None,
                },
                _ => None,
            }
        }
    }

    proof fn read_of_document(value: Self, rest: Seq<EntryView>) {
        reveal(HandshakeType::of_rank);
        let all = value.document() + rest;
        assert(all[0] == value.document()[0]);
        handshake_type_rank_of_its_name(value.rank());
        if let HandshakeType::Unknown(code) = value {
            assert(all.skip(1)[0] == EntryView::Number(code as u64));
        }
    }

    fn describe(&self, out: &mut Vec<Entry>) {
        put(Entry::Variant(self.variant_name().to_owned()), out);
        if let HandshakeType::Unknown(code) = self {
            put(Entry::Number(*code as u64), out);
        }
        assert(entries_view(out@) =~= entries_view(old(out)@) + self.document());
    }

    fn interpret(entries: &[Entry]) -> (r: Option<(Self, usize)>) {
        if entries.len() == 0 {
            return None;
        }
        let rank = match &entries[0] {
            Entry::Variant(name) => match Self::rank_of_name_value(name.as_str()) {
                Some(rank) => rank,
                None => {
                    return None;
                },
            },
            _ => {
                return None;
            },
        };
        if rank == 18 {
            match interpret_octet(rest_of(entries, 1)) {
                Some((code, read)) => Some((HandshakeType::Unknown(code), 1 + read)),
                None => None,
            }
        } else {
            match Self::of_rank_value(rank) {
                Some(value) => Some((value, 1)),
                None => None,
            }
        }
    }
}

impl AlertDescription {
    /// The name of the variant at this place of the declaration.
    pub open spec fn name_of_rank(rank: int) -> Seq<char> {
        if rank == 0 {
            "CloseNotify"@
        } else if rank == 1 {
            "UnexpectedMessage"@
        } else if rank == 2 {
            "BadRecordMac"@
        } else if rank == 3 {
            "DecryptionFailed"@
        } else if rank == 4 {
            "RecordOverflow"@
        } else if rank == 5 {
            "DecompressionFailure"@
        } else if rank == 6 {
            "HandshakeFailure"@
        } else if rank == 7 {
            "NoCertificate"@
        } else if rank == 8 {
            "BadCertificate"@
        } else if rank == 9 {
            "UnsupportedCertificate"@
        } else if rank == 10 {
            "CertificateRevoked"@
        } else if rank == 11 {
            "CertificateExpired"@
        } else if rank == 12 {
            "CertificateUnknown"@
        } else if rank == 13 {
            "IllegalParameter"@
        } else if rank == 14 {
            "UnknownCA"@
        } else if rank == 15 {
            "AccessDenied"@
        } else if rank == 16 {
            "DecodeError"@
        } else if rank == 17 {
            "DecryptError"@
        } else if rank == 18 {
            "ExportRestriction"@
        } else if rank == 19 {
            "ProtocolVersion"@
        } else if rank == 20 {
            "InsufficientSecurity"@
        } else if rank == 21 {
            "InternalError"@
        } else if rank == 22 {
            "InappropriateFallback"@
        } else if rank == 23 {
            "UserCanceled"@
        } else if rank == 24 {
            "NoRenegotiation"@
        } else if rank == 25 {
            "MissingExtension"@
        } else if rank == 26 {
            "UnsupportedExtension"@
        } else if rank == 27 {
            "CertificateUnobtainable"@
        } else if rank == 28 {
            "UnrecognisedName"@
        } else if rank == 29 {
            "BadCertificateStatusResponse"@
        } else if rank == 30 {
            "BadCertificateHashValue"@
        } else if rank == 31 {
            "UnknownPSKIdentity"@
        } else if rank == 32 {
            "CertificateRequired"@
        } else if rank == 33 {
            "NoApplicationProtocol"@
        } else if rank == 34 {
            "Unknown"@
        } else {
            Seq::empty()
        }
    }

    /// The place of the variant of this name, if there is one.
    pub open spec fn rank_of_name(name: Seq<char>) -> Option<int> {
        if exists|rank: int| 0 <= rank < 35 && Self::name_of_rank(rank) == name {
            Some(choose|rank: int| 0 <= rank < 35 && Self::name_of_rank(rank) == name)
        } else {
            None
        }
    }

    /// The name of the variant.
    pub fn variant_name(&self) -> (name: &'static str)
        ensures
            name@ == AlertDescription::name_of_rank(self.rank()),
    {
        match self.rank_value() {
            0 => "CloseNotify",
            1 => "UnexpectedMessage",
            2 => "BadRecordMac",
            3 => "DecryptionFailed",
            4 => "RecordOverflow",
            5 => "DecompressionFailure",
            6 => "HandshakeFailure",
            7 => "NoCertificate",
            8 => "BadCertificate",
            9 => "UnsupportedCertificate",
            10 => "CertificateRevoked",
            11 => "CertificateExpired",
            12 => "CertificateUnknown",
            13 => "IllegalParameter",
            14 => "UnknownCA",
            15 => "AccessDenied",
            16 => "DecodeError",
            17 => "DecryptError",
            18 => "ExportRestriction",
            19 => "ProtocolVersion",
            20 => "InsufficientSecurity",
            21 => "InternalError",
            22 => "InappropriateFallback",
            23 => "UserCanceled",
            24 => "NoRenegotiation",
            25 => "MissingExtension",
            26 => "UnsupportedExtension",
            27 => "CertificateUnobtainable",
            28 => "UnrecognisedName",
            29 => "BadCertificateStatusResponse",
            30 => "BadCertificateHashValue",
            31 => "UnknownPSKIdentity",
            32 => "CertificateRequired",
            33 => "NoApplicationProtocol",
            _ => "Unknown",
        }
    }

    /// The place of the variant of this name, if there is one.
    pub fn rank_of_name_value(name: &str) -> (r: Option<u8>)
        ensures
            r == match AlertDescription::rank_of_name(name@) {
                Some(rank) => Some(rank as u8),
                None => None,
            },
    {
        proof {
            alert_names_are_distinct();
        }
        if str_equal(name, "CloseNotify") {
            assert(AlertDescription::name_of_rank(0) == name@);
            Some(0)
        }         else if str_equal(name, "UnexpectedMessage") {
            assert(AlertDescription::name_of_rank(1) == name@);
            Some(1)
        }         else if str_equal(name, "BadRecordMac") {
            assert(AlertDescription::name_of_rank(2) == name@);
            Some(2)
        }         else if str_equal(name, "DecryptionFailed") {
            assert(AlertDescription::name_of_rank(3) == name@);
            Some(3)
        }         else if str_equal(name, "RecordOverflow") {
            assert(AlertDescription::name_of_rank(4) == name@);
            Some(4)
        }         else if str_equal(name, "DecompressionFailure") {
            assert(AlertDescription::name_of_rank(5) == name@);
            Some(5)
        }         else if str_equal(name, "HandshakeFailure") {
            assert(AlertDescription::name_of_rank(6) == name@);
            Some(6)
        }         else if str_equal(name, "NoCertificate") {
            assert(AlertDescription::name_of_rank(7) == name@);
            Some(7)
        }         else if str_equal(name, "BadCertificate") {
            assert(AlertDescription::name_of_rank(8) == name@);
            Some(8)
        }         else if str_equal(name, "UnsupportedCertificate") {
            assert(AlertDescription::name_of_rank(9) == name@);
            Some(9)
        }         else if str_equal(name, "CertificateRevoked") {
            assert(AlertDescription::name_of_rank(10) == name@);
            Some(10)
        }         else if str_equal(name, "CertificateExpired") {
            assert(AlertDescription::name_of_rank(11) == name@);
            Some(11)
        }         else if str_equal(name, "CertificateUnknown") {
            assert(AlertDescription::name_of_rank(12) == name@);
            Some(12)
        }         else if str_equal(name, "IllegalParameter") {
            assert(AlertDescription::name_of_rank(13) == name@);
            Some(13)
        }         else if str_equal(name, "UnknownCA") {
            assert(AlertDescription::name_of_rank(14) == name@);
            Some(14)
        }         else if str_equal(name, "AccessDenied") {
            assert(AlertDescription::name_of_rank(15) == name@);
            Some(15)
        }         else if str_equal(name, "DecodeError") {
            assert(AlertDescription::name_of_rank(16) == name@);
            Some(16)
        }         else if str_equal(name, "DecryptError") {
            assert(AlertDescription::name_of_rank(17) == name@);
            Some(17)
        }         else if str_equal(name, "ExportRestriction") {
            assert(AlertDescription::name_of_rank(18) == name@);
            Some(18)
        }         else if str_equal(name, "ProtocolVersion") {
            assert(AlertDescription::name_of_rank(19) == name@);
            Some(19)
        }         else if str_equal(name, "InsufficientSecurity") {
            assert(AlertDescription::name_of_rank(20) == name@);
            Some(20)
        }         else if str_equal(name, "InternalError") {
            assert(AlertDescription::name_of_rank(21) == name@);
            Some(21)
        }         else if str_equal(name, "InappropriateFallback") {
            assert(AlertDescription::name_of_rank(22) == name@);
            Some(22)
        }         else if str_equal(name, "UserCanceled") {
            assert(AlertDescription::name_of_rank(23) == name@);
            Some(23)
        }         else if str_equal(name, "NoRenegotiation") {
            assert(AlertDescription::name_of_rank(24) == name@);
            Some(24)
        }         else if str_equal(name, "MissingExtension") {
            assert(AlertDescription::name_of_rank(25) == name@);
            Some(25)
        }         else if str_equal(name, "UnsupportedExtension") {
            assert(AlertDescription::name_of_rank(26) == name@);
            Some(26)
        }         else if str_equal(name, "CertificateUnobtainable") {
            assert(AlertDescription::name_of_rank(27) == name@);
            Some(27)
        }         else if str_equal(name, "UnrecognisedName") {
            assert(AlertDescription::name_of_rank(28) == name@);
            Some(28)
        }         else if str_equal(name, "BadCertificateStatusResponse") {
            assert(AlertDescription::name_of_rank(29) == name@);
            Some(29)
        }         else if str_equal(name, "BadCertificateHashValue") {
            assert(AlertDescription::name_of_rank(30) == name@);
            Some(30)
        }         else if str_equal(name, "UnknownPSKIdentity") {
            assert(AlertDescription::name_of_rank(31) == name@);
            Some(31)
        }         else if str_equal(name, "CertificateRequired") {
            assert(AlertDescription::name_of_rank(32) == name@);
            Some(32)
        }         else if str_equal(name, "NoApplicationProtocol") {
            assert(AlertDescription::name_of_rank(33) == name@);
            Some(33)
        }         else if str_equal(name, "Unknown") {
            assert(AlertDescription::name_of_rank(34) == name@);
            Some(34)
        } else {
            None
        }
    }
}

/// No two alerts have the same name.
pub proof fn alert_names_are_distinct()
    ensures
        forall|a: int, b: int|
            0 <= a < 35 && 0 <= b < 35 && a != b ==> #[trigger] AlertDescription::name_of_rank(
                a,
            ) != #[trigger] AlertDescription::name_of_rank(b),
{
    reveal_strlit("CloseNotify");
    assert("CloseNotify"@.len() == 11 && "CloseNotify"@[0] == 'C');
    reveal_strlit("UnexpectedMessage");
    assert("UnexpectedMessage"@.len() == 17
        && "UnexpectedMessage"@[0] == 'U'
        && "UnexpectedMessage"@[11] == 'e');
    reveal_strlit("BadRecordMac");
    assert("BadRecordMac"@.len() == 12 && "BadRecordMac"@[0] == 'B' && "BadRecordMac"@[11] == 'c');
    reveal_strlit("DecryptionFailed");
    assert("DecryptionFailed"@.len() == 16
        && "DecryptionFailed"@[0] == 'D'
        && "DecryptionFailed"@[11] == 'a');
    reveal_strlit("RecordOverflow");
    assert("RecordOverflow"@.len() == 14
        && "RecordOverflow"@[0] == 'R'
        && "RecordOverflow"@[11] == 'l');
    reveal_strlit("DecompressionFailure");
    assert("DecompressionFailure"@.len() == 20
        && "DecompressionFailure"@[0] == 'D'
        && "DecompressionFailure"@[11] == 'o');
    reveal_strlit("HandshakeFailure");
    assert("HandshakeFailure"@.len() == 16
        && "HandshakeFailure"@[0] == 'H'
        && "HandshakeFailure"@[11] == 'i');
    reveal_strlit("NoCertificate");
    assert("NoCertificate"@.len() == 13
        && "NoCertificate"@[0] == 'N'
        && "NoCertificate"@[11] == 't');
    reveal_strlit("BadCertificate");
    assert("BadCertificate"@.len() == 14
        && "BadCertificate"@[0] == 'B'
        && "BadCertificate"@[11] == 'a');
    reveal_strlit("UnsupportedCertificate");
    assert("UnsupportedCertificate"@.len() == 22
        && "UnsupportedCertificate"@[0] == 'U'
        && "UnsupportedCertificate"@[11] == 'C');
    reveal_strlit("CertificateRevoked");
    assert("CertificateRevoked"@.len() == 18
        && "CertificateRevoked"@[0] == 'C'
        && "CertificateRevoked"@[11] == 'R');
    reveal_strlit("CertificateExpired");
    assert("CertificateExpired"@.len() == 18
        && "CertificateExpired"@[0] == 'C'
        && "CertificateExpired"@[11] == 'E');
    reveal_strlit("CertificateUnknown");
    assert("CertificateUnknown"@.len() == 18
        && "CertificateUnknown"@[0] == 'C'
        && "CertificateUnknown"@[11] == 'U');
    reveal_strlit("IllegalParameter");
    assert("IllegalParameter"@.len() == 16
        && "IllegalParameter"@[0] == 'I'
        && "IllegalParameter"@[11] == 'm');
    reveal_strlit("UnknownCA");
    assert("UnknownCA"@.len() == 9 && "UnknownCA"@[0] == 'U');
    reveal_strlit("AccessDenied");
    assert("AccessDenied"@.len() == 12 && "AccessDenied"@[0] == 'A' && "AccessDenied"@[11] == 'd');
    reveal_strlit("DecodeError");
    assert("DecodeError"@.len() == 11 && "DecodeError"@[0] == 'D');
    reveal_strlit("DecryptError");
    assert("DecryptError"@.len() == 12 && "DecryptError"@[0] == 'D' && "DecryptError"@[11] == 'r');
    reveal_strlit("ExportRestriction");
    assert("ExportRestriction"@.len() == 17
        && "ExportRestriction"@[0] == 'E'
        && "ExportRestriction"@[11] == 'i');
    reveal_strlit("ProtocolVersion");
    assert("ProtocolVersion"@.len() == 15
        && "ProtocolVersion"@[0] == 'P'
        && "ProtocolVersion"@[11] == 's');
    reveal_strlit("InsufficientSecurity");
    assert("InsufficientSecurity"@.len() == 20
        && "InsufficientSecurity"@[0] == 'I'
        && "InsufficientSecurity"@[11] == 't');
    reveal_strlit("InternalError");
    assert("InternalError"@.len() == 13
        && "InternalError"@[0] == 'I'
        && "InternalError"@[11] == 'o');
    reveal_strlit("InappropriateFallback");
    assert("InappropriateFallback"@.len() == 21
        && "InappropriateFallback"@[0] == 'I'
        && "InappropriateFallback"@[11] == 't');
    reveal_strlit("UserCanceled");
    assert("UserCanceled"@.len() == 12 && "UserCanceled"@[0] == 'U' && "UserCanceled"@[11] == 'd');
    reveal_strlit("NoRenegotiation");
    assert("NoRenegotiation"@.len() == 15
        && "NoRenegotiation"@[0] == 'N'
        && "NoRenegotiation"@[11] == 't');
    reveal_strlit("MissingExtension");
    assert("MissingExtension"@.len() == 16
        && "MissingExtension"@[0] == 'M'
        && "MissingExtension"@[11] == 'n');
    reveal_strlit("UnsupportedExtension");
    assert("UnsupportedExtension"@.len() == 20
        && "UnsupportedExtension"@[0] == 'U'
        && "UnsupportedExtension"@[11] == 'E');
    reveal_strlit("CertificateUnobtainable");
    assert("CertificateUnobtainable"@.len() == 23
        && "CertificateUnobtainable"@[0] == 'C'
        && "CertificateUnobtainable"@[11] == 'U');
    reveal_strlit("UnrecognisedName");
    assert("UnrecognisedName"@.len() == 16
        && "UnrecognisedName"@[0] == 'U'
        && "UnrecognisedName"@[11] == 'd');
    reveal_strlit("BadCertificateStatusResponse");
    assert("BadCertificateStatusResponse"@.len() == 28
        && "BadCertificateStatusResponse"@[0] == 'B'
        && "BadCertificateStatusResponse"@[11] == 'a');
    reveal_strlit("BadCertificateHashValue");
    assert("BadCertificateHashValue"@.len() == 23
        && "BadCertificateHashValue"@[0] == 'B'
        && "BadCertificateHashValue"@[11] == 'a');
    reveal_strlit("UnknownPSKIdentity");
    assert("UnknownPSKIdentity"@.len() == 18
        && "UnknownPSKIdentity"@[0] == 'U'
        && "UnknownPSKIdentity"@[11] == 'd');
    reveal_strlit("CertificateRequired");
    assert("CertificateRequired"@.len() == 19
        && "CertificateRequired"@[0] == 'C'
        && "CertificateRequired"@[11] == 'R');
    reveal_strlit("NoApplicationProtocol");
    assert("NoApplicationProtocol"@.len() == 21
        && "NoApplicationProtocol"@[0] == 'N'
        && "NoApplicationProtocol"@[11] == 'o');
    reveal_strlit("Unknown");
    assert("Unknown"@.len() == 7 && "Unknown"@[0] == 'U');
}

/// The name of a variant leads back to its place.
pub proof fn alert_rank_of_its_name(rank: int)
    requires
        0 <= rank < 35,
    ensures
        AlertDescription::rank_of_name(AlertDescription::name_of_rank(rank)) == Some(rank),
{
    alert_names_are_distinct();
}

impl Described for AlertDescription {
    /// The name of the variant; after `Unknown`, its code.
    open spec fn document(self) -> Seq<EntryView> {
        match self {
            AlertDescription::Unknown(code) => seq![
                EntryView::Variant(Self::name_of_rank(34)),
                EntryView::Number(code as u64),
            ],
            _ => seq![EntryView::Variant(Self::name_of_rank(self.rank()))],
        }
    }

    open spec fn read(entries: Seq<EntryView>) -> Option<(Self, int)> {
        if entries.len() == 0 {
            None
        } else {
            match entries[0] {
                EntryView::Variant(name) => match Self::rank_of_name(name) {
                    Some(rank) => if rank == 34 {
                        match read_octet(entries.skip(1)) {
                            Some((code, read)) => Some((AlertDescription::Unknown(code), 1 + read)),
                            None => None,
                        }
                    } else {
                        match Self::of_rank(rank) {
                            Some(value) => Some((value, 1)),
                            None => None,
                        }
                    },
                    None => None,
                },
                _ => None,
            }
        }
    }

    proof fn read_of_document(value: Self, rest: Seq<EntryView>) {
        reveal(AlertDescription::of_rank);
        let all = value.document() + rest;
        assert(all[0] == value.document()[0]);
        alert_rank_of_its_name(value.rank());
        if let AlertDescription::Unknown(code) = value {
            assert(all.skip(1)[0] == EntryView::Number(code as u64));
        }
    }

    fn describe(&self, out: &mut Vec<Entry>) {
        put(Entry::Variant(self.variant_name().to_owned()), out);
        if let AlertDescription::Unknown(code) = self {
            put(Entry::Number(*code as u64), out);
        }
        assert(entries_view(out@) =~= entries_view(old(out)@) + self.document());
    }

    fn interpret(entries: &[Entry]) -> (r: Option<(Self, usize)>) {
        if entries.len() == 0 {
            return None;
        }
        let rank = match &entries[0] {
            Entry::Variant(name) => match Self::rank_of_name_value(name.as_str()) {
                Some(rank) => rank,
                None => {
                    return None;
                },
            },
            _ => {
                return None;
            },
        };
        if rank == 34 {
            match interpret_octet(rest_of(entries, 1)) {
                Some((code, read)) => Some((AlertDescription::Unknown(code), 1 + read)),
                None => None,
            }
        } else {
            match Self::of_rank_value(rank) {
                Some(value) => Some((value, 1)),
                None => None,
            }
        }
    }
}

impl SctError {
    /// The name of the variant at this place of the declaration.
    pub open spec fn name_of_rank(rank: int) -> Seq<char> {
        if rank == 0 {
            "MalformedSct"@
        } else if rank == 1 {
            "InvalidSignature"@
        } else if rank == 2 {
            "TimestampInFuture"@
        } else if rank == 3 {
            "UnsupportedSctVersion"@
        } else if rank == 4 {
            "UnknownLog"@
        } else {
            Seq::empty()
        }
    }

    /// The place of the variant of this name, if there is one.
    pub open spec fn rank_of_name(name: Seq<char>) -> Option<int> {
        if exists|rank: int| 0 <= rank < 5 && Self::name_of_rank(rank) == name {
            Some(choose|rank: int| 0 <= rank < 5 && Self::name_of_rank(rank) == name)
        } else {
            None
        }
    }

    /// The name of the variant.
    pub fn variant_name(&self) -> (name: &'static str)
        ensures
            name@ == SctError::name_of_rank(self.rank()),
    {
        match self.rank_value() {
            0 => "MalformedSct",
            1 => "InvalidSignature",
            2 => "TimestampInFuture",
            3 => "UnsupportedSctVersion",
            _ => "UnknownLog",
        }
    }

    /// The place of the variant of this name, if there is one.
    pub fn rank_of_name_value(name: &str) -> (r: Option<u8>)
        ensures
            r == match SctError::rank_of_name(name@) {
                Some(rank) => Some(rank as u8),
                None => None,
            },
    {
        proof {
            sct_names_are_distinct();
        }
        if str_equal(name, "MalformedSct") {
            assert(SctError::name_of_rank(0) == name@);
            Some(0)
        }         else if str_equal(name, "InvalidSignature") {
            assert(SctError::name_of_rank(1) == name@);
            Some(1)
        }         else if str_equal(name, "TimestampInFuture") {
            assert(SctError::name_of_rank(2) == name@);
            Some(2)
        }         else if str_equal(name, "UnsupportedSctVersion") {
            assert(SctError::name_of_rank(3) == name@);
            Some(3)
        }         else if str_equal(name, "UnknownLog") {
            assert(SctError::name_of_rank(4) == name@);
            Some(4)
        } else {
            None
        }
    }
}

/// No two reasons have the same name.
pub proof fn sct_names_are_distinct()
    ensures
        forall|a: int, b: int|
            0 <= a < 5 && 0 <= b < 5 && a != b ==> #[trigger] SctError::name_of_rank(
                a,
            ) != #[trigger] SctError::name_of_rank(b),
{
    reveal_strlit("MalformedSct");
    assert("MalformedSct"@.len() == 12);
    reveal_strlit("InvalidSignature");
    assert("InvalidSignature"@.len() == 16);
    reveal_strlit("TimestampInFuture");
    assert("TimestampInFuture"@.len() == 17);
    reveal_strlit("UnsupportedSctVersion");
    assert("UnsupportedSctVersion"@.len() == 21);
    reveal_strlit("UnknownLog");
    assert("UnknownLog"@.len() == 10);
}

/// The name of a variant leads back to its place.
pub proof fn sct_rank_of_its_name(rank: int)
    requires
        0 <= rank < 5,
    ensures
        SctError::rank_of_name(SctError::name_of_rank(rank)) == Some(rank),
{
    sct_names_are_distinct();
}

impl Described for SctError {
    /// The name of the variant.
    open spec fn document(self) -> Seq<EntryView> {
        seq![EntryView::Variant(Self::name_of_rank(self.rank()))]
    }

    open spec fn read(entries: Seq<EntryView>) -> Option<(Self, int)> {
        if entries.len() == 0 {
            None
        } else {
            match entries[0] {
                EntryView::Variant(name) => match Self::rank_of_name(name) {
                    Some(rank) => match Self::of_rank(rank) {
                        Some(value) => Some((value, 1)),
                        None => None,
                    },
                    None => None,
                },
                _ => None,
            }
        }
    }

    proof fn read_of_document(value: Self, rest: Seq<EntryView>) {
        reveal(SctError::of_rank);
        let all = value.document() + rest;
        assert(all[0] == value.document()[0]);
        sct_rank_of_its_name(value.rank());
    }

    fn describe(&self, out: &mut Vec<Entry>) {
        put(Entry::Variant(self.variant_name().to_owned()), out);
        assert(entries_view(out@) =~= entries_view(old(out)@) + self.document());
    }

    fn interpret(entries: &[Entry]) -> (r: Option<(Self, usize)>) {
        if entries.len() == 0 {
            return None;
        }
        let rank = match &entries[0] {
            Entry::Variant(name) => match Self::rank_of_name_value(name.as_str()) {
                Some(rank) => rank,
                None => {
                    return None;
                },
            },
            _ => {
                return None;
            },
        };
        match Self::of_rank_value(rank) {
            Some(value) => Some((value, 1)),
            None => None,
        }
    }
}

impl RustlsErrorView {
    /// The name of the variant at this place of the declaration.
    pub open spec fn name_of_rank(rank: int) -> Seq<char> {
        if rank == 0 {
            "InappropriateMessage"@
        } else if rank == 1 {
            "InappropriateHandshakeMessage"@
        } else if rank == 2 {
            "CorruptMessage"@
        } else if rank == 3 {
            "CorruptMessagePayload"@
        } else if rank == 4 {
            "NoCertificatesPresented"@
        } else if rank == 5 {
            "UnsupportedNameType"@
        } else if rank == 6 {
            "DecryptError"@
        } else if rank == 7 {
            "EncryptError"@
        } else if rank == 8 {
            "PeerIncompatibleError"@
        } else if rank == 9 {
            "PeerMisbehavedError"@
        } else if rank == 10 {
            "AlertReceived"@
        } else if rank == 11 {
            "InvalidCertificateEncoding"@
        } else if rank == 12 {
            "InvalidCertificateSignatureType"@
        } else if rank == 13 {
            "InvalidCertificateSignature"@
        } else if rank == 14 {
            "InvalidCertificateData"@
        } else if rank == 15 {
            "InvalidSct"@
        } else if rank == 16 {
            "General"@
        } else if rank == 17 {
            "FailedToGetCurrentTime"@
        } else if rank == 18 {
            "FailedToGetRandomBytes"@
        } else if rank == 19 {
            "HandshakeNotComplete"@
        } else if rank == 20 {
            "PeerSentOversizedRecord"@
        } else if rank == 21 {
            "NoApplicationProtocol"@
        } else if rank == 22 {
            "BadMaxFragmentSize"@
        } else {
            Seq::empty()
        }
    }

    /// The place of the variant of this name, if there is one.
    pub open spec fn rank_of_name(name: Seq<char>) -> Option<int> {
        if exists|rank: int| 0 <= rank < 23 && Self::name_of_rank(rank) == name {
            Some(choose|rank: int| 0 <= rank < 23 && Self::name_of_rank(rank) == name)
        } else {
            None
        }
    }

    /// Whether every list inside is short enough for the number of its
    /// entries to be written down.
    pub open spec fn lists_fit(self) -> bool {
        match self {
            RustlsErrorView::InappropriateMessage { expect_types: a0, got_type: _ } => {
                a0.len() <= u64::MAX
            },
            RustlsErrorView::InappropriateHandshakeMessage { expect_types: a0, got_type: _ } => {
                a0.len() <= u64::MAX
            },
            _ => true,
        }
    }

    /// Reads the fields of `InappropriateMessage`, each after its name.
    pub open spec fn read_inappropriate_message(rest: Seq<EntryView>) -> Option<(Self, int)> {
        if !starts_with_field(rest, "expect_types"@) {
            None
        } else {
            match read_list::<ContentType>(rest.skip(1)) {
                Some((a0, n0)) => {
                    if !starts_with_field(rest.skip(1 + n0), "got_type"@) {
                        None
                    } else {
                        match ContentType::read(rest.skip(1 + n0 + 1)) {
                            Some((a1, n1)) => {
                                Some(
                                    (
                                        RustlsErrorView::InappropriateMessage {
                                            expect_types: a0,
                                            got_type: a1,
                                        },
                                        1 + n0 + 1 + n1,
                                    ),
                                )
                            },
                            None => None,
                        }
                    }
                },
                None => None,
            }
        }
    }

    /// Reads the fields of `InappropriateHandshakeMessage`, each after its name.
    pub open spec fn read_inappropriate_handshake_message(rest: Seq<EntryView>) -> Option<
        (Self, int),
    > {
        if !starts_with_field(rest, "expect_types"@) {
            None
        } else {
            match read_list::<HandshakeType>(rest.skip(1)) {
                Some((a0, n0)) => {
                    if !starts_with_field(rest.skip(1 + n0), "got_type"@) {
                        None
                    } else {
                        match HandshakeType::read(rest.skip(1 + n0 + 1)) {
                            Some((a1, n1)) => {
                                Some(
                                    (
                                        RustlsErrorView::InappropriateHandshakeMessage {
                                            expect_types: a0,
                                            got_type: a1,
                                        },
                                        1 + n0 + 1 + n1,
                                    ),
                                )
                            },
                            None => None,
                        }
                    }
                },
                None => None,
            }
        }
    }

    /// The structured form: the name of the variant, then the fields, each
    /// field that has a name after that name.
    pub open spec fn document(self) -> Seq<EntryView> {
        match self {
            RustlsErrorView::InappropriateMessage { expect_types: a0, got_type: a1 } => {
                seq![EntryView::Variant(Self::name_of_rank(0))]
                    + seq![EntryView::Field("expect_types"@)]
                    + list_document(a0)
                    + seq![EntryView::Field("got_type"@)]
                    + a1.document()
            },
            RustlsErrorView::InappropriateHandshakeMessage { expect_types: a0, got_type: a1 } => {
                seq![EntryView::Variant(Self::name_of_rank(1))]
                    + seq![EntryView::Field("expect_types"@)]
                    + list_document(a0)
                    + seq![EntryView::Field("got_type"@)]
                    + a1.document()
            },
            RustlsErrorView::CorruptMessagePayload(a0) => {
                seq![EntryView::Variant(Self::name_of_rank(3))]
                    + a0.document()
            },
            RustlsErrorView::PeerIncompatibleError(a0) => {
                seq![EntryView::Variant(Self::name_of_rank(8))]
                    + seq![EntryView::Text(a0)]
            },
            RustlsErrorView::PeerMisbehavedError(a0) => {
                seq![EntryView::Variant(Self::name_of_rank(9))]
                    + seq![EntryView::Text(a0)]
            },
            RustlsErrorView::AlertReceived(a0) => {
                seq![EntryView::Variant(Self::name_of_rank(10))]
                    + a0.document()
            },
            RustlsErrorView::InvalidCertificateData(a0) => {
                seq![EntryView::Variant(Self::name_of_rank(14))]
                    + seq![EntryView::Text(a0)]
            },
            RustlsErrorView::InvalidSct(a0) => {
                seq![EntryView::Variant(Self::name_of_rank(15))]
                    + a0.document()
            },
            RustlsErrorView::General(a0) => {
                seq![EntryView::Variant(Self::name_of_rank(16))]
                    + seq![EntryView::Text(a0)]
            },
            _ => seq![EntryView::Variant(Self::name_of_rank(self.rank()))],
        }
    }

    /// Reads one value from the front of a document: the value and the count
    /// of entries read, or `None` where no value stands there.
    #[verifier::opaque]
    pub open spec fn read(entries: Seq<EntryView>) -> Option<(Self, int)> {
        if entries.len() == 0 {
            None
        } else {
            let rest = entries.skip(1);
            match entries[0] {
                EntryView::Variant(name) => match Self::rank_of_name(name) {
                    Some(rank) => {
                        if rank == 0 {
                            match Self::read_inappropriate_message(rest) {
                                Some((value, read)) => Some((value, 1 + read)),
                                None => None,
                            }
                        } else if rank == 1 {
                            match Self::read_inappropriate_handshake_message(rest) {
                                Some((value, read)) => Some((value, 1 + read)),
                                None => None,
                            }
                        } else if rank == 3 {
                            match ContentType::read(rest) {
                                Some((a0, n0)) => {
                                    Some((RustlsErrorView::CorruptMessagePayload(a0), 1 + n0))
                                },
                                None => None,
                            }
                        } else if rank == 8 {
                            match read_text(rest) {
                                Some((a0, n0)) => {
                                    Some((RustlsErrorView::PeerIncompatibleError(a0), 1 + n0))
                                },
                                None => None,
                            }
                        } else if rank == 9 {
                            match read_text(rest) {
                                Some((a0, n0)) => {
                                    Some((RustlsErrorView::PeerMisbehavedError(a0), 1 + n0))
                                },
                                None => None,
                            }
                        } else if rank == 10 {
                            match AlertDescription::read(rest) {
                                Some((a0, n0)) => {
                                    Some((RustlsErrorView::AlertReceived(a0), 1 + n0))
                                },
                                None => None,
                            }
                        } else if rank == 14 {
                            match read_text(rest) {
                                Some((a0, n0)) => {
                                    Some((RustlsErrorView::InvalidCertificateData(a0), 1 + n0))
                                },
                                None => None,
                            }
                        } else if rank == 15 {
                            match SctError::read(rest) {
                                Some((a0, n0)) => Some((RustlsErrorView::InvalidSct(a0), 1 + n0)),
                                None => None,
                            }
                        } else if rank == 16 {
                            match read_text(rest) {
                                Some((a0, n0)) => Some((RustlsErrorView::General(a0), 1 + n0)),
                                None => None,
                            }
                        } else {
                            match Self::unit_of_rank(rank) {
                                Some(value) => Some((value, 1)),
                                None => None,
                            }
                        }
                    },
                    None => None,
                },
                _ => None,
            }
        }
    }
}

/// No two failures have the same name.
pub proof fn tls_names_are_distinct()
    ensures
        forall|a: int, b: int|
            0 <= a < 23 && 0 <= b < 23 && a != b ==> #[trigger] RustlsErrorView::name_of_rank(
                a,
            ) != #[trigger] RustlsErrorView::name_of_rank(b),
{
    reveal_strlit("InappropriateMessage");
    assert("InappropriateMessage"@.len() == 20
        && "InappropriateMessage"@[0] == 'I'
        && "InappropriateMessage"@[11] == 't');
    reveal_strlit("InappropriateHandshakeMessage");
    assert("InappropriateHandshakeMessage"@.len() == 29
        && "InappropriateHandshakeMessage"@[0] == 'I'
        && "InappropriateHandshakeMessage"@[11] == 't');
    reveal_strlit("CorruptMessage");
    assert("CorruptMessage"@.len() == 14
        && "CorruptMessage"@[0] == 'C'
        && "CorruptMessage"@[11] == 'a');
    reveal_strlit("CorruptMessagePayload");
    assert("CorruptMessagePayload"@.len() == 21
        && "CorruptMessagePayload"@[0] == 'C'
        && "CorruptMessagePayload"@[11] == 'a');
    reveal_strlit("NoCertificatesPresented");
    assert("NoCertificatesPresented"@.len() == 23
        && "NoCertificatesPresented"@[0] == 'N'
        && "NoCertificatesPresented"@[11] == 't');
    reveal_strlit("UnsupportedNameType");
    assert("UnsupportedNameType"@.len() == 19
        && "UnsupportedNameType"@[0] == 'U'
        && "UnsupportedNameType"@[11] == 'N');
    reveal_strlit("DecryptError");
    assert("DecryptError"@.len() == 12 && "DecryptError"@[0] == 'D' && "DecryptError"@[11] == 'r');
    reveal_strlit("EncryptError");
    assert("EncryptError"@.len() == 12 && "EncryptError"@[0] == 'E' && "EncryptError"@[11] == 'r');
    reveal_strlit("PeerIncompatibleError");
    assert("PeerIncompatibleError"@.len() == 21
        && "PeerIncompatibleError"@[0] == 'P'
        && "PeerIncompatibleError"@[11] == 't');
    reveal_strlit("PeerMisbehavedError");
    assert("PeerMisbehavedError"@.len() == 19
        && "PeerMisbehavedError"@[0] == 'P'
        && "PeerMisbehavedError"@[11] == 'v');
    reveal_strlit("AlertReceived");
    assert("AlertReceived"@.len() == 13
        && "AlertReceived"@[0] == 'A'
        && "AlertReceived"@[11] == 'e');
    reveal_strlit("InvalidCertificateEncoding");
    assert("InvalidCertificateEncoding"@.len() == 26
        && "InvalidCertificateEncoding"@[0] == 'I'
        && "InvalidCertificateEncoding"@[11] == 'i');
    reveal_strlit("InvalidCertificateSignatureType");
    assert("InvalidCertificateSignatureType"@.len() == 31
        && "InvalidCertificateSignatureType"@[0] == 'I'
        && "InvalidCertificateSignatureType"@[11] == 'i');
    reveal_strlit("InvalidCertificateSignature");
    assert("InvalidCertificateSignature"@.len() == 27
        && "InvalidCertificateSignature"@[0] == 'I'
        && "InvalidCertificateSignature"@[11] == 'i');
    reveal_strlit("InvalidCertificateData");
    assert("InvalidCertificateData"@.len() == 22
        && "InvalidCertificateData"@[0] == 'I'
        && "InvalidCertificateData"@[11] == 'i');
    reveal_strlit("InvalidSct");
    assert("InvalidSct"@.len() == 10 && "InvalidSct"@[0] == 'I');
    reveal_strlit("General");
    assert("General"@.len() == 7 && "General"@[0] == 'G');
    reveal_strlit("FailedToGetCurrentTime");
    assert("FailedToGetCurrentTime"@.len() == 22
        && "FailedToGetCurrentTime"@[0] == 'F'
        && "FailedToGetCurrentTime"@[11] == 'C');
    reveal_strlit("FailedToGetRandomBytes");
    assert("FailedToGetRandomBytes"@.len() == 22
        && "FailedToGetRandomBytes"@[0] == 'F'
        && "FailedToGetRandomBytes"@[11] == 'R');
    reveal_strlit("HandshakeNotComplete");
    assert("HandshakeNotComplete"@.len() == 20
        && "HandshakeNotComplete"@[0] == 'H'
        && "HandshakeNotComplete"@[11] == 't');
    reveal_strlit("PeerSentOversizedRecord");
    assert("PeerSentOversizedRecord"@.len() == 23
        && "PeerSentOversizedRecord"@[0] == 'P'
        && "PeerSentOversizedRecord"@[11] == 'r');
    reveal_strlit("NoApplicationProtocol");
    assert("NoApplicationProtocol"@.len() == 21
        && "NoApplicationProtocol"@[0] == 'N'
        && "NoApplicationProtocol"@[11] == 'o');
    reveal_strlit("BadMaxFragmentSize");
    assert("BadMaxFragmentSize"@.len() == 18
        && "BadMaxFragmentSize"@[0] == 'B'
        && "BadMaxFragmentSize"@[11] == 'e');
}

/// The name of a variant leads back to its place.
pub proof fn tls_rank_of_its_name(rank: int)
    requires
        0 <= rank < 23,
    ensures
        RustlsErrorView::rank_of_name(RustlsErrorView::name_of_rank(rank)) == Some(rank),
{
    tls_names_are_distinct();
}

impl RustlsError {
    /// The name of the variant.
    pub fn variant_name(&self) -> (name: &'static str)
        ensures
            name@ == RustlsErrorView::name_of_rank(self@.rank()),
    {
        match self.rank_value() {
            0 => "InappropriateMessage",
            1 => "InappropriateHandshakeMessage",
            2 => "CorruptMessage",
            3 => "CorruptMessagePayload",
            4 => "NoCertificatesPresented",
            5 => "UnsupportedNameType",
            6 => "DecryptError",
            7 => "EncryptError",
            8 => "PeerIncompatibleError",
            9 => "PeerMisbehavedError",
            10 => "AlertReceived",
            11 => "InvalidCertificateEncoding",
            12 => "InvalidCertificateSignatureType",
            13 => "InvalidCertificateSignature",
            14 => "InvalidCertificateData",
            15 => "InvalidSct",
            16 => "General",
            17 => "FailedToGetCurrentTime",
            18 => "FailedToGetRandomBytes",
            19 => "HandshakeNotComplete",
            20 => "PeerSentOversizedRecord",
            21 => "NoApplicationProtocol",
            _ => "BadMaxFragmentSize",
        }
    }

    /// The place of the variant of this name, if there is one.
    pub fn rank_of_name_value(name: &str) -> (r: Option<u8>)
        ensures
            r == match RustlsErrorView::rank_of_name(name@) {
                Some(rank) => Some(rank as u8),
                None => None,
            },
    {
        proof {
            tls_names_are_distinct();
        }
        if str_equal(name, "InappropriateMessage") {
            assert(RustlsErrorView::name_of_rank(0) == name@);
            Some(0)
        }         else if str_equal(name, "InappropriateHandshakeMessage") {
            assert(RustlsErrorView::name_of_rank(1) == name@);
            Some(1)
        }         else if str_equal(name, "CorruptMessage") {
            assert(RustlsErrorView::name_of_rank(2) == name@);
            Some(2)
        }         else if str_equal(name, "CorruptMessagePayload") {
            assert(RustlsErrorView::name_of_rank(3) == name@);
            Some(3)
        }         else if str_equal(name, "NoCertificatesPresented") {
            assert(RustlsErrorView::name_of_rank(4) == name@);
            Some(4)
        }         else if str_equal(name, "UnsupportedNameType") {
            assert(RustlsErrorView::name_of_rank(5) == name@);
            Some(5)
        }         else if str_equal(name, "DecryptError") {
            assert(RustlsErrorView::name_of_rank(6) == name@);
            Some(6)
        }         else if str_equal(name, "EncryptError") {
            assert(RustlsErrorView::name_of_rank(7) == name@);
            Some(7)
        }         else if str_equal(name, "PeerIncompatibleError") {
            assert(RustlsErrorView::name_of_rank(8) == name@);
            Some(8)
        }         else if str_equal(name, "PeerMisbehavedError") {
            assert(RustlsErrorView::name_of_rank(9) == name@);
            Some(9)
        }         else if str_equal(name, "AlertReceived") {
            assert(RustlsErrorView::name_of_rank(10) == name@);
            Some(10)
        }         else if str_equal(name, "InvalidCertificateEncoding") {
            assert(RustlsErrorView::name_of_rank(11) == name@);
            Some(11)
        }         else if str_equal(name, "InvalidCertificateSignatureType") {
            assert(RustlsErrorView::name_of_rank(12) == name@);
            Some(12)
        }         else if str_equal(name, "InvalidCertificateSignature") {
            assert(RustlsErrorView::name_of_rank(13) == name@);
            Some(13)
        }         else if str_equal(name, "InvalidCertificateData") {
            assert(RustlsErrorView::name_of_rank(14) == name@);
            Some(14)
        }         else if str_equal(name, "InvalidSct") {
            assert(RustlsErrorView::name_of_rank(15) == name@);
            Some(15)
        }         else if str_equal(name, "General") {
            assert(RustlsErrorView::name_of_rank(16) == name@);
            Some(16)
        }         else if str_equal(name, "FailedToGetCurrentTime") {
            assert(RustlsErrorView::name_of_rank(17) == name@);
            Some(17)
        }         else if str_equal(name, "FailedToGetRandomBytes") {
            assert(RustlsErrorView::name_of_rank(18) == name@);
            Some(18)
        }         else if str_equal(name, "HandshakeNotComplete") {
            assert(RustlsErrorView::name_of_rank(19) == name@);
            Some(19)
        }         else if str_equal(name, "PeerSentOversizedRecord") {
            assert(RustlsErrorView::name_of_rank(20) == name@);
            Some(20)
        }         else if str_equal(name, "NoApplicationProtocol") {
            assert(RustlsErrorView::name_of_rank(21) == name@);
            Some(21)
        }         else if str_equal(name, "BadMaxFragmentSize") {
            assert(RustlsErrorView::name_of_rank(22) == name@);
            Some(22)
        } else {
            None
        }
    }

    /// Reads the fields of `InappropriateMessage`, each after its name.
    fn interpret_inappropriate_message(rest: &[Entry]) -> (r: Option<(Self, usize)>)
        ensures
            match r {
                Some((value, read)) => {
                    &&& RustlsErrorView::read_inappropriate_message(entries_view(rest@))
                        == Some((value@, read as int))
                    &&& read <= rest.len()
                },
                None => RustlsErrorView::read_inappropriate_message(entries_view(rest@)) is None,
            },
    {
        if !has_field(rest, "expect_types") {
            None
        } else {
            let part0 = rest_of(rest, 1);
            match interpret_list::<ContentType>(part0) {
                Some((x0, n0)) => {
                    let part1 = rest_of(rest, 1 + n0);
                    if !has_field(part1, "got_type") {
                        None
                    } else {
                        let part2 = rest_of(rest, 1 + n0 + 1);
                        match ContentType::interpret(part2) {
                            Some((x1, n1)) => {
                                Some(
                                    (
                                        RustlsError::InappropriateMessage {
                                            expect_types: x0,
                                            got_type: x1,
                                        },
                                        1 + n0 + 1 + n1,
                                    ),
                                )
                            },
                            None => None,
                        }
                    }
                },
                None => None,
            }
        }
    }

    /// Reads the fields of `InappropriateHandshakeMessage`, each after its name.
    fn interpret_inappropriate_handshake_message(rest: &[Entry]) -> (r: Option<(Self, usize)>)
        ensures
            match r {
                Some((value, read)) => {
                    &&& RustlsErrorView::read_inappropriate_handshake_message(entries_view(rest@))
                        == Some((value@, read as int))
                    &&& read <= rest.len()
                },
                None => {
                    RustlsErrorView::read_inappropriate_handshake_message(
                        entries_view(rest@),
                    ) is None
                },
            },
    {
        if !has_field(rest, "expect_types") {
            None
        } else {
            let part0 = rest_of(rest, 1);
            match interpret_list::<HandshakeType>(part0) {
                Some((x0, n0)) => {
                    let part1 = rest_of(rest, 1 + n0);
                    if !has_field(part1, "got_type") {
                        None
                    } else {
                        let part2 = rest_of(rest, 1 + n0 + 1);
                        match HandshakeType::interpret(part2) {
                            Some((x1, n1)) => {
                                Some(
                                    (
                                        RustlsError::InappropriateHandshakeMessage {
                                            expect_types: x0,
                                            got_type: x1,
                                        },
                                        1 + n0 + 1 + n1,
                                    ),
                                )
                            },
                            None => None,
                        }
                    }
                },
                None => None,
            }
        }
    }

    /// Appends the structured form of `self`.
    pub fn describe(&self, out: &mut Vec<Entry>)
        ensures
            entries_view(final(out)@) == entries_view(old(out)@) + self@.document(),
            self@.lists_fit(),
    {
        put(Entry::Variant(self.variant_name().to_owned()), out);
        match self {
            RustlsError::InappropriateMessage { expect_types: x0, got_type: x1 } => {
                put(Entry::Field("expect_types".to_owned()), out);
                describe_list(x0.as_slice(), out);
                put(Entry::Field("got_type".to_owned()), out);
                x1.describe(out);
            },
            RustlsError::InappropriateHandshakeMessage { expect_types: x0, got_type: x1 } => {
                put(Entry::Field("expect_types".to_owned()), out);
                describe_list(x0.as_slice(), out);
                put(Entry::Field("got_type".to_owned()), out);
                x1.describe(out);
            },
            RustlsError::CorruptMessagePayload(x0) => {
                x0.describe(out);
            },
            RustlsError::PeerIncompatibleError(x0) => {
                put(Entry::Text(x0.clone()), out);
            },
            RustlsError::PeerMisbehavedError(x0) => {
                put(Entry::Text(x0.clone()), out);
            },
            RustlsError::AlertReceived(x0) => {
                x0.describe(out);
            },
            RustlsError::InvalidCertificateData(x0) => {
                put(Entry::Text(x0.clone()), out);
            },
            RustlsError::InvalidSct(x0) => {
                x0.describe(out);
            },
            RustlsError::General(x0) => {
                put(Entry::Text(x0.clone()), out);
            },
            _ => {},
        }
        assert(entries_view(out@) =~= entries_view(old(out)@) + self@.document());
    }

    /// Reads one value from the front of a document: the value and the count
    /// of entries read, or `None` where no value stands there.
    pub fn interpret(entries: &[Entry]) -> (r: Option<(Self, usize)>)
        ensures
            match r {
                Some((value, read)) => RustlsErrorView::read(entries_view(entries@)) == Some(
                    (value@, read as int),
                ) && read <= entries.len(),
                None => RustlsErrorView::read(entries_view(entries@)) is None,
            },
    {
        proof {
            reveal(RustlsErrorView::read);
        }
        if entries.len() == 0 {
            return None;
        }
        let rank = match &entries[0] {
            Entry::Variant(name) => match Self::rank_of_name_value(name.as_str()) {
                Some(rank) => rank,
                None => {
                    return None;
                },
            },
            _ => {
                return None;
            },
        };
        let rest = rest_of(entries, 1);
        if rank == 0 {
            match Self::interpret_inappropriate_message(rest) {
                Some((value, read)) => Some((value, 1 + read)),
                None => None,
            }
        } else if rank == 1 {
            match Self::interpret_inappropriate_handshake_message(rest) {
                Some((value, read)) => Some((value, 1 + read)),
                None => None,
            }
        } else if rank == 3 {
            match ContentType::interpret(rest) {
                Some((x0, n0)) => Some((RustlsError::CorruptMessagePayload(x0), 1 + n0)),
                None => None,
            }
        } else if rank == 8 {
            match interpret_text(rest) {
                Some((x0, n0)) => Some((RustlsError::PeerIncompatibleError(x0), 1 + n0)),
                None => None,
            }
        } else if rank == 9 {
            match interpret_text(rest) {
                Some((x0, n0)) => Some((RustlsError::PeerMisbehavedError(x0), 1 + n0)),
                None => None,
            }
        } else if rank == 10 {
            match AlertDescription::interpret(rest) {
                Some((x0, n0)) => Some((RustlsError::AlertReceived(x0), 1 + n0)),
                None => None,
            }
        } else if rank == 14 {
            match interpret_text(rest) {
                Some((x0, n0)) => Some((RustlsError::InvalidCertificateData(x0), 1 + n0)),
                None => None,
            }
        } else if rank == 15 {
            match SctError::interpret(rest) {
                Some((x0, n0)) => Some((RustlsError::InvalidSct(x0), 1 + n0)),
                None => None,
            }
        } else if rank == 16 {
            match interpret_text(rest) {
                Some((x0, n0)) => Some((RustlsError::General(x0), 1 + n0)),
                None => None,
            }
        } else {
            match Self::unit_of_rank_value(rank) {
                Some(value) => Some((value, 1)),
                None => None,
            }
        }
    }

    /// The structured form of `self`.
    pub fn to_document(&self) -> (document: Vec<Entry>)
        ensures
            entries_view(document@) == self@.document(),
            self@.lists_fit(),
    {
        let mut document: Vec<Entry> = Vec::new();
        self.describe(&mut document);
        assert(entries_view(document@) =~= self@.document());
        document
    }

    /// The value whose structured form the document is, all of it; `None`
    /// where the document is no structured form, or more entries follow one.
    pub fn from_document(entries: &[Entry]) -> (r: Option<Self>)
        ensures
            match r {
                Some(value) => RustlsErrorView::read(entries_view(entries@)) == Some(
                    (value@, entries@.len() as int),
                ),
                None => {
                    !(RustlsErrorView::read(entries_view(entries@)) matches Some((_, read))
                        && read == entries@.len())
                },
            },
    {
        match Self::interpret(entries) {
            Some((value, read)) => {
                if read == entries.len() {
                    Some(value)
                } else {
                    None
                }
            },
            None => None,
        }
    }
}

/// A failure is read back from its document, whatever follows.
pub proof fn tls_read_of_document(value: RustlsErrorView, rest: Seq<EntryView>)
    requires
        value.lists_fit(),
    ensures
        RustlsErrorView::read(value.document() + rest) == Some(
            (value, value.document().len() as int),
        ),
{
    reveal(RustlsErrorView::read);
    let tag = EntryView::Variant(RustlsErrorView::name_of_rank(value.rank()));
    tls_rank_of_its_name(value.rank());
    match value {
        RustlsErrorView::InappropriateMessage { expect_types: a0, got_type: a1 } => {
            after_name_and_fields(
                tag,
                EntryView::Field("expect_types"@),
                list_document(a0),
                EntryView::Field("got_type"@),
                a1.document(),
                rest,
            );
            read_list_of_document(a0, seq![EntryView::Field("got_type"@)] + (a1.document() + rest));
            ContentType::read_of_document(a1, rest);
        },
        RustlsErrorView::InappropriateHandshakeMessage { expect_types: a0, got_type: a1 } => {
            after_name_and_fields(
                tag,
                EntryView::Field("expect_types"@),
                list_document(a0),
                EntryView::Field("got_type"@),
                a1.document(),
                rest,
            );
            read_list_of_document(a0, seq![EntryView::Field("got_type"@)] + (a1.document() + rest));
            HandshakeType::read_of_document(a1, rest);
        },
        RustlsErrorView::CorruptMessagePayload(a0) => {
            after_name(tag, a0.document(), rest);
            ContentType::read_of_document(a0, rest);
        },
        RustlsErrorView::PeerIncompatibleError(a0) => {
            after_name(tag, seq![EntryView::Text(a0)], rest);
            first_of_one(EntryView::Text(a0), rest);
        },
        RustlsErrorView::PeerMisbehavedError(a0) => {
            after_name(tag, seq![EntryView::Text(a0)], rest);
            first_of_one(EntryView::Text(a0), rest);
        },
        RustlsErrorView::AlertReceived(a0) => {
            after_name(tag, a0.document(), rest);
            AlertDescription::read_of_document(a0, rest);
        },
        RustlsErrorView::InvalidCertificateData(a0) => {
            after_name(tag, seq![EntryView::Text(a0)], rest);
            first_of_one(EntryView::Text(a0), rest);
        },
        RustlsErrorView::InvalidSct(a0) => {
            after_name(tag, a0.document(), rest);
            SctError::read_of_document(a0, rest);
        },
        RustlsErrorView::General(a0) => {
            after_name(tag, seq![EntryView::Text(a0)], rest);
            first_of_one(EntryView::Text(a0), rest);
        },
        _ => {
            after_name(tag, Seq::empty(), rest);
        },
    }
}

/// Reading the document of a failure gives the value back, and reads all of it.
pub proof fn tls_document_round_trip(value: RustlsErrorView)
    requires
        value.lists_fit(),
    ensures
        RustlsErrorView::read(value.document()) == Some(
            (value, value.document().len() as int),
        ),
{
    tls_read_of_document(value, Seq::empty());
    assert(value.document() + Seq::<EntryView>::empty() =~= value.document());
}

/// Two values with the same document are the same value.
pub proof fn tls_document_is_injective(a: RustlsErrorView, b: RustlsErrorView)
    requires
        a.lists_fit(),
        b.lists_fit(),
        a.document() == b.document(),
    ensures
        a == b,
{
    tls_document_round_trip(a);
    tls_document_round_trip(b);
}

} // verus!
