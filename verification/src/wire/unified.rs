//! The binary form of the unified error.

use crate::errors::common::{PoseidonError, PoseidonErrorView};
use crate::errors::http::{HttpError, HttpErrorView, JsonError, JsonErrorView};
use crate::errors::io::{PoseidonErrorKind, PoseidonErrorKindView};
use crate::errors::ssl::{RustlsError, RustlsErrorView};
use crate::wire::http::{http_parse_of_encoding, json_parse_of_encoding};
use crate::wire::io::io_parse_of_encoding;
use crate::wire::ssl::tls_parse_of_encoding;
use crate::wire::{
    after_tag, after_tag_and_field, decode_index, decode_text, encode_index, encode_text,
    index_encoding, parse_index, parse_index_of_encoding, parse_text, parse_text_of_encoding,
    text_encoding, text_fits,
};
use vstd::prelude::*;
use vstd::slice::slice_subrange;

verus! {

impl PoseidonErrorView {
    /// The variant without a field at this place of the declaration.
    pub open spec fn unit_of_rank(rank: int) -> Option<Self> {
        if rank == 0 {
            Some(PoseidonErrorView::MissingEd25519PublicKey)
        }         else if rank == 1 {
            Some(PoseidonErrorView::MissingKeypair)
        }         else if rank == 2 {
            Some(PoseidonErrorView::MissingTxSignature)
        }         else if rank == 3 {
            Some(PoseidonErrorView::HomeDirectoryNotFound)
        }         else if rank == 4 {
            Some(PoseidonErrorView::PathIsNotValidUtf8)
        }         else if rank == 6 {
            Some(PoseidonErrorView::InvalidBase58Ed25519SecretKey)
        }         else if rank == 7 {
            Some(PoseidonErrorView::InvalidBase58Ed25519PublicKey)
        }         else if rank == 8 {
            Some(PoseidonErrorView::InvalidBase58Ed25519Signature)
        }         else if rank == 9 {
            Some(PoseidonErrorView::RepoCreatePermissionDenied)
        }         else if rank == 10 {
            Some(PoseidonErrorView::RepoAlreadyExists)
        }         else if rank == 12 {
            Some(PoseidonErrorView::InvalidByteToUtf8StringConversion)
        }         else if rank == 13 {
            Some(PoseidonErrorView::InvalidEd25519PublicKeyHex)
        }         else if rank == 15 {
            Some(PoseidonErrorView::OddLength)
        }         else if rank == 16 {
            Some(PoseidonErrorView::InvalidStringLength)
        }         else if rank == 21 {
            Some(PoseidonErrorView::AccountNotFound)
        }         else if rank == 22 {
            Some(PoseidonErrorView::UnableToDeserializeAccountInfo)
        }         else if rank == 23 {
            Some(PoseidonErrorView::UnableToSerializeTx)
        } else {
            None
        }
    }

    /// Reads the fields of `InvalidHexCharacter`.
    pub open spec fn parse_invalid_hex_character(rest: Seq<u8>) -> Option<(Self, int)> {
        match parse_text(rest) {
            Some((a0, n0)) => {
                match parse_index(rest.skip(n0)) {
                    Some((a1, n1)) => {
                        Some((PoseidonErrorView::InvalidHexCharacter { c: a0, index: a1 }, n0 + n1))
                    },
                    None => None,
                }
            },
            None => None,
        }
    }

    /// Whether every text and list inside is short enough for its length to
    /// be written down.
    pub open spec fn fits(self) -> bool {
        match self {
            PoseidonErrorView::InvalidUtf8(a0) => text_fits(a0),
            PoseidonErrorView::IoErr(a0) => a0.fits(),
            PoseidonErrorView::InvalidHexCharacter { c: a0, index: _ } => text_fits(a0),
            PoseidonErrorView::SledCollectionNotFound(a0) => text_fits(a0),
            PoseidonErrorView::SledUnsupported(a0) => text_fits(a0),
            PoseidonErrorView::SledReportableBug(a0) => text_fits(a0),
            PoseidonErrorView::SledCorruption(a0) => text_fits(a0),
            PoseidonErrorView::Rustls(a0) => a0.fits(),
            PoseidonErrorView::Http(a0) => a0.fits(),
            PoseidonErrorView::Json(a0) => a0.fits(),
            PoseidonErrorView::SerdeJson(a0) => text_fits(a0),
            PoseidonErrorView::Unspecified(a0) => text_fits(a0),
            _ => true,
        }
    }

    /// The binary form: the place of the variant as one byte, then the fields.
    pub open spec fn encoding(self) -> Seq<u8> {
        match self {
            PoseidonErrorView::InvalidUtf8(a0) => seq![5u8] + text_encoding(a0),
            PoseidonErrorView::IoErr(a0) => seq![11u8] + a0.encoding(),
            PoseidonErrorView::InvalidHexCharacter { c: a0, index: a1 } => {
                seq![14u8] + text_encoding(a0) + index_encoding(a1)
            },
            PoseidonErrorView::SledCollectionNotFound(a0) => seq![17u8] + text_encoding(a0),
            PoseidonErrorView::SledUnsupported(a0) => seq![18u8] + text_encoding(a0),
            PoseidonErrorView::SledReportableBug(a0) => seq![19u8] + text_encoding(a0),
            PoseidonErrorView::SledCorruption(a0) => seq![20u8] + text_encoding(a0),
            PoseidonErrorView::Rustls(a0) => seq![24u8] + a0.encoding(),
            PoseidonErrorView::Http(a0) => seq![25u8] + a0.encoding(),
            PoseidonErrorView::Json(a0) => seq![26u8] + a0.encoding(),
            PoseidonErrorView::SerdeJson(a0) => seq![27u8] + text_encoding(a0),
            PoseidonErrorView::Unspecified(a0) => seq![28u8] + text_encoding(a0),
            _ => seq![self.rank() as u8],
        }
    }

    /// Reads one value from the front of `bytes`: the value and the count of
    /// bytes read, or `None` where no value stands there.
    #[verifier::opaque]
    pub open spec fn parse(bytes: Seq<u8>) -> Option<(Self, int)> {
        if bytes.len() == 0 {
            None
        } else {
            let tag = bytes[0];
            let rest = bytes.skip(1);
            if tag == 5 {
                match parse_text(rest) {
                    Some((a0, n0)) => Some((PoseidonErrorView::InvalidUtf8(a0), 1 + n0)),
                    None => None,
                }
            } else if tag == 11 {
                match PoseidonErrorKindView::parse(rest) {
                    Some((a0, n0)) => Some((PoseidonErrorView::IoErr(a0), 1 + n0)),
                    None => None,
                }
            } else if tag == 14 {
                match Self::parse_invalid_hex_character(rest) {
                    Some((value, read)) => Some((value, 1 + read)),
                    None => None,
                }
            } else if tag == 17 {
                match parse_text(rest) {
                    Some((a0, n0)) => Some((PoseidonErrorView::SledCollectionNotFound(a0), 1 + n0)),
                    None => None,
                }
            } else if tag == 18 {
                match parse_text(rest) {
                    Some((a0, n0)) => Some((PoseidonErrorView::SledUnsupported(a0), 1 + n0)),
                    None => None,
                }
            } else if tag == 19 {
                match parse_text(rest) {
                    Some((a0, n0)) => Some((PoseidonErrorView::SledReportableBug(a0), 1 + n0)),
                    None => None,
                }
            } else if tag == 20 {
                match parse_text(rest) {
                    Some((a0, n0)) => Some((PoseidonErrorView::SledCorruption(a0), 1 + n0)),
                    None => None,
                }
            } else if tag == 24 {
                match RustlsErrorView::parse(rest) {
                    Some((a0, n0)) => Some((PoseidonErrorView::Rustls(a0), 1 + n0)),
                    None => None,
                }
            } else if tag == 25 {
                match HttpErrorView::parse(rest) {
                    Some((a0, n0)) => Some((PoseidonErrorView::Http(a0), 1 + n0)),
                    None => None,
                }
            } else if tag == 26 {
                match JsonErrorView::parse(rest) {
                    Some((a0, n0)) => Some((PoseidonErrorView::Json(a0), 1 + n0)),
                    None => None,
                }
            } else if tag == 27 {
                match parse_text(rest) {
                    Some((a0, n0)) => Some((PoseidonErrorView::SerdeJson(a0), 1 + n0)),
                    None => None,
                }
            } else if tag == 28 {
                match parse_text(rest) {
                    Some((a0, n0)) => Some((PoseidonErrorView::Unspecified(a0), 1 + n0)),
                    None => None,
                }
            } else {
                match Self::unit_of_rank(tag as int) {
                    Some(value) => Some((value, 1)),
                    None => None,
                }
            }
        }
    }
}

impl PoseidonError {
    /// The variant without a field at this place of the declaration.
    pub fn unit_of_rank_value(rank: u8) -> (r: Option<Self>)
        ensures
            match r {
                Some(value) => PoseidonErrorView::unit_of_rank(rank as int) == Some(value@),
                None => PoseidonErrorView::unit_of_rank(rank as int) is None,
            },
    {
        match rank {
            0 => Some(PoseidonError::MissingEd25519PublicKey),
            1 => Some(PoseidonError::MissingKeypair),
            2 => Some(PoseidonError::MissingTxSignature),
            3 => Some(PoseidonError::HomeDirectoryNotFound),
            4 => Some(PoseidonError::PathIsNotValidUtf8),
            6 => Some(PoseidonError::InvalidBase58Ed25519SecretKey),
            7 => Some(PoseidonError::InvalidBase58Ed25519PublicKey),
            8 => Some(PoseidonError::InvalidBase58Ed25519Signature),
            9 => Some(PoseidonError::RepoCreatePermissionDenied),
            10 => Some(PoseidonError::RepoAlreadyExists),
            12 => Some(PoseidonError::InvalidByteToUtf8StringConversion),
            13 => Some(PoseidonError::InvalidEd25519PublicKeyHex),
            15 => Some(PoseidonError::OddLength),
            16 => Some(PoseidonError::InvalidStringLength),
            21 => Some(PoseidonError::AccountNotFound),
            22 => Some(PoseidonError::UnableToDeserializeAccountInfo),
            23 => Some(PoseidonError::UnableToSerializeTx),
            _ => None,
        }
    }

    /// Reads the fields of `InvalidHexCharacter`.
    fn decode_invalid_hex_character(rest: &[u8]) -> (r: Option<(Self, usize)>)
        ensures
            match r {
                Some((value, read)) => {
                    &&& PoseidonErrorView::parse_invalid_hex_character(rest@)
                        == Some((value@, read as int))
                    &&& read <= rest.len()
                },
                None => PoseidonErrorView::parse_invalid_hex_character(rest@) is None,
            },
    {
        match decode_text(rest) {
            Some((x0, n0)) => {
                let after0 = slice_subrange(rest, n0, rest.len());
                assert(after0@ =~= rest@.skip(n0 as int));
                match decode_index(after0) {
                    Some((x1, n1)) => {
                        Some((PoseidonError::InvalidHexCharacter { c: x0, index: x1 }, n0 + n1))
                    },
                    None => None,
                }
            },
            None => None,
        }
    }

    /// Appends the binary form of `self`.
    pub fn encode(&self, out: &mut Vec<u8>)
        ensures
            final(out)@ == old(out)@ + self@.encoding(),
            self@.fits(),
    {
        out.push(self.rank_value());
        match self {
            PoseidonError::InvalidUtf8(x0) => {
                encode_text(x0.as_str(), out);
            },
            PoseidonError::IoErr(x0) => {
                x0.encode(out);
            },
            PoseidonError::InvalidHexCharacter { c: x0, index: x1 } => {
                encode_text(x0.as_str(), out);
                encode_index(*x1, out);
            },
            PoseidonError::SledCollectionNotFound(x0) => {
                encode_text(x0.as_str(), out);
            },
            PoseidonError::SledUnsupported(x0) => {
                encode_text(x0.as_str(), out);
            },
            PoseidonError::SledReportableBug(x0) => {
                encode_text(x0.as_str(), out);
            },
            PoseidonError::SledCorruption(x0) => {
                encode_text(x0.as_str(), out);
            },
            PoseidonError::Rustls(x0) => {
                x0.encode(out);
            },
            PoseidonError::Http(x0) => {
                x0.encode(out);
            },
            PoseidonError::Json(x0) => {
                x0.encode(out);
            },
            PoseidonError::SerdeJson(x0) => {
                encode_text(x0.as_str(), out);
            },
            PoseidonError::Unspecified(x0) => {
                encode_text(x0.as_str(), out);
            },
            _ => {},
        }
        assert(out@ =~= old(out)@ + self@.encoding());
    }

    /// Reads one value from the front of `bytes`: the value and the count of
    /// bytes read, or `None` where no value stands there.
    pub fn decode(bytes: &[u8]) -> (r: Option<(Self, usize)>)
        ensures
            match r {
                Some((value, read)) => {
                    &&& PoseidonErrorView::parse(bytes@) == Some((value@, read as int))
                    &&& read <= bytes.len()
                },
                None => PoseidonErrorView::parse(bytes@) is None,
            },
    {
        proof {
            reveal(PoseidonErrorView::parse);
        }
        if bytes.len() == 0 {
            return None;
        }
        let tag = bytes[0];
        let rest = slice_subrange(bytes, 1, bytes.len());
        assert(rest@ =~= bytes@.skip(1));
        if tag == 5 {
            match decode_text(rest) {
                Some((x0, n0)) => Some((PoseidonError::InvalidUtf8(x0), 1 + n0)),
                None => None,
            }
        } else if tag == 11 {
            match PoseidonErrorKind::decode(rest) {
                Some((x0, n0)) => Some((PoseidonError::IoErr(x0), 1 + n0)),
                None => None,
            }
        } else if tag == 14 {
            match Self::decode_invalid_hex_character(rest) {
                Some((value, read)) => Some((value, 1 + read)),
                None => None,
            }
        } else if tag == 17 {
            match decode_text(rest) {
                Some((x0, n0)) => Some((PoseidonError::SledCollectionNotFound(x0), 1 + n0)),
                None => None,
            }
        } else if tag == 18 {
            match decode_text(rest) {
                Some((x0, n0)) => Some((PoseidonError::SledUnsupported(x0), 1 + n0)),
                None => None,
            }
        } else if tag == 19 {
            match decode_text(rest) {
                Some((x0, n0)) => Some((PoseidonError::SledReportableBug(x0), 1 + n0)),
                None => None,
            }
        } else if tag == 20 {
            match decode_text(rest) {
                Some((x0, n0)) => Some((PoseidonError::SledCorruption(x0), 1 + n0)),
                None => None,
            }
        } else if tag == 24 {
            match RustlsError::decode(rest) {
                Some((x0, n0)) => Some((PoseidonError::Rustls(x0), 1 + n0)),
                None => None,
            }
        } else if tag == 25 {
            match HttpError::decode(rest) {
                Some((x0, n0)) => Some((PoseidonError::Http(x0), 1 + n0)),
                None => None,
            }
        } else if tag == 26 {
            match JsonError::decode(rest) {
                Some((x0, n0)) => Some((PoseidonError::Json(x0), 1 + n0)),
                None => None,
            }
        } else if tag == 27 {
            match decode_text(rest) {
                Some((x0, n0)) => Some((PoseidonError::SerdeJson(x0), 1 + n0)),
                None => None,
            }
        } else if tag == 28 {
            match decode_text(rest) {
                Some((x0, n0)) => Some((PoseidonError::Unspecified(x0), 1 + n0)),
                None => None,
            }
        } else {
            match Self::unit_of_rank_value(tag) {
                Some(value) => Some((value, 1)),
                None => None,
            }
        }
    }

    /// The binary form of `self`.
    pub fn to_bytes(&self) -> (bytes: Vec<u8>)
        ensures
            bytes@ == self@.encoding(),
            self@.fits(),
    {
        let mut bytes: Vec<u8> = Vec::new();
        self.encode(&mut bytes);
        assert(bytes@ =~= self@.encoding());
        bytes
    }

    /// The value whose binary form `bytes` is, all of it; `None` where the
    /// bytes are no binary form, or more bytes follow one.
    pub fn from_bytes(bytes: &[u8]) -> (r: Option<Self>)
        ensures
            match r {
                Some(value) => PoseidonErrorView::parse(bytes@) == Some(
                    (value@, bytes@.len() as int),
                ),
                None => !(PoseidonErrorView::parse(bytes@) matches Some((_, read))
                    && read == bytes@.len()),
            },
    {
        match Self::decode(bytes) {
            Some((value, read)) => {
                if read == bytes.len() {
                    Some(value)
                } else {
                    None
                }
            },
            None => None,
        }
    }
}

/// An error is read back from its binary form, whatever follows.
pub proof fn error_parse_of_encoding(value: PoseidonErrorView, rest: Seq<u8>)
    requires
        value.fits(),
    ensures
        PoseidonErrorView::parse(value.encoding() + rest) == Some(
            (value, value.encoding().len() as int),
        ),
{
    reveal(PoseidonErrorView::parse);
    let tag = value.rank() as u8;
    match value {
        PoseidonErrorView::InvalidUtf8(a0) => {
            after_tag(tag, text_encoding(a0), rest);
            parse_text_of_encoding(a0, rest);
        },
        PoseidonErrorView::IoErr(a0) => {
            after_tag(tag, a0.encoding(), rest);
            io_parse_of_encoding(a0, rest);
        },
        PoseidonErrorView::InvalidHexCharacter { c: a0, index: a1 } => {
            after_tag_and_field(tag, text_encoding(a0), index_encoding(a1), rest);
            parse_text_of_encoding(a0, index_encoding(a1) + rest);
            parse_index_of_encoding(a1, rest);
        },
        PoseidonErrorView::SledCollectionNotFound(a0) => {
            after_tag(tag, text_encoding(a0), rest);
            parse_text_of_encoding(a0, rest);
        },
        PoseidonErrorView::SledUnsupported(a0) => {
            after_tag(tag, text_encoding(a0), rest);
            parse_text_of_encoding(a0, rest);
        },
        PoseidonErrorView::SledReportableBug(a0) => {
            after_tag(tag, text_encoding(a0), rest);
            parse_text_of_encoding(a0, rest);
        },
        PoseidonErrorView::SledCorruption(a0) => {
            after_tag(tag, text_encoding(a0), rest);
            parse_text_of_encoding(a0, rest);
        },
        PoseidonErrorView::Rustls(a0) => {
            after_tag(tag, a0.encoding(), rest);
            tls_parse_of_encoding(a0, rest);
        },
        PoseidonErrorView::Http(a0) => {
            after_tag(tag, a0.encoding(), rest);
            http_parse_of_encoding(a0, rest);
        },
        PoseidonErrorView::Json(a0) => {
            after_tag(tag, a0.encoding(), rest);
            json_parse_of_encoding(a0, rest);
        },
        PoseidonErrorView::SerdeJson(a0) => {
            after_tag(tag, text_encoding(a0), rest);
            parse_text_of_encoding(a0, rest);
        },
        PoseidonErrorView::Unspecified(a0) => {
            after_tag(tag, text_encoding(a0), rest);
            parse_text_of_encoding(a0, rest);
        },
        _ => {
            after_tag(tag, Seq::empty(), rest);
        },
    }
}

/// Reading the binary form of an error gives the value back, and reads all of it.
pub proof fn error_round_trip(value: PoseidonErrorView)
    requires
        value.fits(),
    ensures
        PoseidonErrorView::parse(value.encoding()) == Some(
            (value, value.encoding().len() as int),
        ),
{
    error_parse_of_encoding(value, Seq::empty());
    assert(value.encoding() + Seq::<u8>::empty() =~= value.encoding());
}

/// Two values with the same binary form are the same value.
pub proof fn error_encoding_is_injective(a: PoseidonErrorView, b: PoseidonErrorView)
    requires
        a.fits(),
        b.fits(),
        a.encoding() == b.encoding(),
    ensures
        a == b,
{
    error_round_trip(a);
    error_round_trip(b);
}

} // verus!
