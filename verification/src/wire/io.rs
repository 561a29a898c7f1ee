//! The binary form of the I/O category.

use crate::errors::io::{PoseidonErrorKind, PoseidonErrorKindView};
use crate::wire::{
    after_tag, decode_text, encode_text, parse_text, parse_text_of_encoding, text_encoding,
    text_fits,
};
use vstd::prelude::*;
use vstd::slice::slice_subrange;

verus! {

impl PoseidonErrorKindView {
    /// The variant without a field at this place of the declaration.
    pub open spec fn unit_of_rank(rank: int) -> Option<Self> {
        if rank == 0 {
            Some(PoseidonErrorKindView::NotFound)
        }         else if rank == 1 {
            Some(PoseidonErrorKindView::PermissionDenied)
        }         else if rank == 2 {
            Some(PoseidonErrorKindView::ConnectionRefused)
        }         else if rank == 3 {
            Some(PoseidonErrorKindView::ConnectionReset)
        }         else if rank == 4 {
            Some(PoseidonErrorKindView::NotConnected)
        }         else if rank == 5 {
            Some(PoseidonErrorKindView::ConnectionAborted)
        }         else if rank == 6 {
            Some(PoseidonErrorKindView::AddrInUse)
        }         else if rank == 7 {
            Some(PoseidonErrorKindView::AddrNotAvailable)
        }         else if rank == 8 {
            Some(PoseidonErrorKindView::AlreadyExists)
        }         else if rank == 9 {
            Some(PoseidonErrorKindView::WouldBlock)
        }         else if rank == 10 {
            Some(PoseidonErrorKindView::InvalidInput)
        }         else if rank == 11 {
            Some(PoseidonErrorKindView::InvalidData)
        }         else if rank == 12 {
            Some(PoseidonErrorKindView::BrokenPipe)
        }         else if rank == 13 {
            Some(PoseidonErrorKindView::TimedOut)
        }         else if rank == 14 {
            Some(PoseidonErrorKindView::WriteZero)
        }         else if rank == 15 {
            Some(PoseidonErrorKindView::Interrupted)
        }         else if rank == 16 {
            Some(PoseidonErrorKindView::Unsupported)
        }         else if rank == 17 {
            Some(PoseidonErrorKindView::UnexpectedEof)
        }         else if rank == 18 {
            Some(PoseidonErrorKindView::OutOfMemory)
        }         else if rank == 19 {
            Some(PoseidonErrorKindView::Other)
        } else {
            None
        }
    }

    /// Whether every text and list inside is short enough for its length to
    /// be written down.
    pub open spec fn fits(self) -> bool {
        match self {
            PoseidonErrorKindView::Unspecified(a0) => text_fits(a0),
            _ => true,
        }
    }

    /// The binary form: the place of the variant as one byte, then the fields.
    pub open spec fn encoding(self) -> Seq<u8> {
        match self {
            PoseidonErrorKindView::Unspecified(a0) => seq![20u8] + text_encoding(a0),
            _ => seq![self.rank() as u8],
        }
    }

    /// Reads one value from the front of `bytes`: the value and the count of
    /// bytes read, or `None` where no value stands there.
    #[verifier::opaque]
    pub open spec fn parse(bytes: Seq<u8>) -> Option<(Self, int)> {
        if bytes.len() == 0 {
            None
        } else {
            let tag = bytes[0];
            let rest = bytes.skip(1);
            if tag == 20 {
                match parse_text(rest) {
                    Some((a0, n0)) => Some((PoseidonErrorKindView::Unspecified(a0), 1 + n0)),
                    None => None,
                }
            } else {
                match Self::unit_of_rank(tag as int) {
                    Some(value) => Some((value, 1)),
                    None => None,
                }
            }
        }
    }
}

impl PoseidonErrorKind {
    /// The variant without a field at this place of the declaration.
    pub fn unit_of_rank_value(rank: u8) -> (r: Option<Self>)
        ensures
            match r {
                Some(value) => PoseidonErrorKindView::unit_of_rank(rank as int) == Some(value@),
                None => PoseidonErrorKindView::unit_of_rank(rank as int) is None,
            },
    {
        match rank {
            0 => Some(PoseidonErrorKind::NotFound),
            1 => Some(PoseidonErrorKind::PermissionDenied),
            2 => Some(PoseidonErrorKind::ConnectionRefused),
            3 => Some(PoseidonErrorKind::ConnectionReset),
            4 => Some(PoseidonErrorKind::NotConnected),
            5 => Some(PoseidonErrorKind::ConnectionAborted),
            6 => Some(PoseidonErrorKind::AddrInUse),
            7 => Some(PoseidonErrorKind::AddrNotAvailable),
            8 => Some(PoseidonErrorKind::AlreadyExists),
            9 => Some(PoseidonErrorKind::WouldBlock),
            10 => Some(PoseidonErrorKind::InvalidInput),
            11 => Some(PoseidonErrorKind::InvalidData),
            12 => Some(PoseidonErrorKind::BrokenPipe),
            13 => Some(PoseidonErrorKind::TimedOut),
            14 => Some(PoseidonErrorKind::WriteZero),
            15 => Some(PoseidonErrorKind::Interrupted),
            16 => Some(PoseidonErrorKind::Unsupported),
            17 => Some(PoseidonErrorKind::UnexpectedEof),
            18 => Some(PoseidonErrorKind::OutOfMemory),
            19 => Some(PoseidonErrorKind::Other),
            _ => None,
        }
    }

    /// Appends the binary form of `self`.
    pub fn encode(&self, out: &mut Vec<u8>)
        ensures
            final(out)@ == old(out)@ + self@.encoding(),
            self@.fits(),
    {
        out.push(self.rank_value());
        match self {
            PoseidonErrorKind::Unspecified(x0) => {
                encode_text(x0.as_str(), out);
            },
            _ => {},
        }
        assert(out@ =~= old(out)@ + self@.encoding());
    }

    /// Reads one value from the front of `bytes`: the value and the count of
    /// bytes read, or `None` where no value stands there.
    pub fn decode(bytes: &[u8]) -> (r: Option<(Self, usize)>)
        ensures
            match r {
                Some((value, read)) => {
                    &&& PoseidonErrorKindView::parse(bytes@) == Some((value@, read as int))
                    &&& read <= bytes.len()
                },
                None => PoseidonErrorKindView::parse(bytes@) is None,
            },
    {
        proof {
            reveal(PoseidonErrorKindView::parse);
        }
        if bytes.len() == 0 {
            return None;
        }
        let tag = bytes[0];
        let rest = slice_subrange(bytes, 1, bytes.len());
        assert(rest@ =~= bytes@.skip(1));
        if tag == 20 {
            match decode_text(rest) {
                Some((x0, n0)) => Some((PoseidonErrorKind::Unspecified(x0), 1 + n0)),
                None => None,
            }
        } else {
            match Self::unit_of_rank_value(tag) {
                Some(value) => Some((value, 1)),
                None => None,
            }
        }
    }

    /// The binary form of `self`.
    pub fn to_bytes(&self) -> (bytes: Vec<u8>)
        ensures
            bytes@ == self@.encoding(),
            self@.fits(),
    {
        let mut bytes: Vec<u8> = Vec::new();
        self.encode(&mut bytes);
        assert(bytes@ =~= self@.encoding());
        bytes
    }

    /// The value whose binary form `bytes` is, all of it; `None` where the
    /// bytes are no binary form, or more bytes follow one.
    pub fn from_bytes(bytes: &[u8]) -> (r: Option<Self>)
        ensures
            match r {
                Some(value) => PoseidonErrorKindView::parse(bytes@) == Some(
                    (value@, bytes@.len() as int),
                ),
                None => !(PoseidonErrorKindView::parse(bytes@) matches Some((_, read))
                    && read == bytes@.len()),
            },
    {
        match Self::decode(bytes) {
            Some((value, read)) => {
                if read == bytes.len() {
                    Some(value)
                } else {
                    None
                }
            },
            None => None,
        }
    }
}

/// A category is read back from its binary form, whatever follows.
pub proof fn io_parse_of_encoding(value: PoseidonErrorKindView, rest: Seq<u8>)
    requires
        value.fits(),
    ensures
        PoseidonErrorKindView::parse(value.encoding() + rest) == Some(
            (value, value.encoding().len() as int),
        ),
{
    reveal(PoseidonErrorKindView::parse);
    let tag = value.rank() as u8;
    match value {
        PoseidonErrorKindView::Unspecified(a0) => {
            after_tag(tag, text_encoding(a0), rest);
            parse_text_of_encoding(a0, rest);
        },
        _ => {
            after_tag(tag, Seq::empty(), rest);
        },
    }
}

/// Reading the binary form of a category gives the value back, and reads all of it.
pub proof fn io_round_trip(value: PoseidonErrorKindView)
    requires
        value.fits(),
    ensures
        PoseidonErrorKindView::parse(value.encoding()) == Some(
            (value, value.encoding().len() as int),
        ),
{
    io_parse_of_encoding(value, Seq::empty());
    assert(value.encoding() + Seq::<u8>::empty() =~= value.encoding());
}

/// Two values with the same binary form are the same value.
pub proof fn io_encoding_is_injective(a: PoseidonErrorKindView, b: PoseidonErrorKindView)
    requires
        a.fits(),
        b.fits(),
        a.encoding() == b.encoding(),
    ensures
        a == b,
{
    io_round_trip(a);
    io_round_trip(b);
}

} // verus!
