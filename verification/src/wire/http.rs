//! The binary form of the transport category and of a reported error.

use crate::errors::http::{HttpError, HttpErrorView, JsonError, JsonErrorView};
use crate::wire::{
    after_tag, decode_text, encode_text, parse_text, parse_text_of_encoding, text_encoding,
    text_fits,
};
use vstd::bytes::{
    lemma_auto_spec_u16_to_from_le_bytes, spec_u16_from_le_bytes, spec_u16_to_le_bytes,
    u16_from_le_bytes, u16_to_le_bytes,
};
use vstd::prelude::*;
use vstd::slice::slice_subrange;

verus! {

/// The two bytes of a code, least significant first, negative codes in
/// two's complement.
pub open spec fn code_encoding(code: i16) -> Seq<u8> {
    spec_u16_to_le_bytes(code as u16)
}

/// Reads a code from the front of `bytes`.
pub open spec fn parse_code(bytes: Seq<u8>) -> Option<(i16, int)> {
    if bytes.len() < 2 {
        None
    } else {
        Some((spec_u16_from_le_bytes(bytes.subrange(0, 2)) as i16, 2))
    }
}

/// A code is read back from its encoding, whatever follows.
pub proof fn parse_code_of_encoding(code: i16, rest: Seq<u8>)
    ensures
        code_encoding(code).len() == 2,
        parse_code(code_encoding(code) + rest) == Some((code, 2int)),
{
    lemma_auto_spec_u16_to_from_le_bytes();
    assert((code_encoding(code) + rest).subrange(0, 2) =~= code_encoding(code));
    assert((code as u16) as i16 == code) by (bit_vector);
}

impl JsonErrorView {
    /// Whether the message is short enough for its length to be written down.
    pub open spec fn fits(self) -> bool {
        text_fits(self.message)
    }

    /// The binary form: the code, then the message.
    pub open spec fn encoding(self) -> Seq<u8> {
        code_encoding(self.code) + text_encoding(self.message)
    }

    /// Reads one value from the front of `bytes`: the value and the count of
    /// bytes read, or `None` where no value stands there.
    #[verifier::opaque]
    pub open spec fn parse(bytes: Seq<u8>) -> Option<(Self, int)> {
        match parse_code(bytes) {
            Some((code, _)) => match parse_text(bytes.skip(2)) {
                Some((message, read)) => Some((JsonErrorView { code, message }, 2 + read)),
                None => None,
            },
            None => None,
        }
    }
}

impl JsonError {
    /// Appends the binary form of `self`.
    pub fn encode(&self, out: &mut Vec<u8>)
        ensures
            final(out)@ == old(out)@ + self@.encoding(),
            self@.fits(),
    {
        let mut code = u16_to_le_bytes(self.code as u16);
        out.append(&mut code);
        encode_text(self.message.as_str(), out);
        assert(out@ =~= old(out)@ + self@.encoding());
    }

    /// Reads one value from the front of `bytes`: the value and the count of
    /// bytes read, or `None` where no value stands there.
    pub fn decode(bytes: &[u8]) -> (r: Option<(Self, usize)>)
        ensures
            match r {
                Some((value, read)) => JsonErrorView::parse(bytes@) == Some((value@, read as int))
                    && read <= bytes.len(),
                None => JsonErrorView::parse(bytes@) is None,
            },
    {
        proof {
            reveal(JsonErrorView::parse);
        }
        if bytes.len() < 2 {
            return None;
        }
        let code = u16_from_le_bytes(slice_subrange(bytes, 0, 2)) as i16;
        let rest = slice_subrange(bytes, 2, bytes.len());
        assert(rest@ =~= bytes@.skip(2));
        match decode_text(rest) {
            Some((message, read)) => Some((JsonError { code, message }, 2 + read)),
            None => None,
        }
    }

    /// The binary form of `self`.
    pub fn to_bytes(&self) -> (bytes: Vec<u8>)
        ensures
            bytes@ == self@.encoding(),
            self@.fits(),
    {
        let mut bytes: Vec<u8> = Vec::new();
        self.encode(&mut bytes);
        assert(bytes@ =~= self@.encoding());
        bytes
    }

    /// The value whose binary form `bytes` is, all of it; `None` where the
    /// bytes are no binary form, or more bytes follow one.
    pub fn from_bytes(bytes: &[u8]) -> (r: Option<Self>)
        ensures
            match r {
                Some(value) => JsonErrorView::parse(bytes@) == Some((value@, bytes@.len() as int)),
                None => !(JsonErrorView::parse(bytes@) matches Some((_, read)) && read
                    == bytes@.len()),
            },
    {
        match Self::decode(bytes) {
            Some((value, read)) => {
                if read == bytes.len() {
                    Some(value)
                } else {
                    None
                }
            },
            None => None,
        }
    }
}

/// A reported error is read back from its binary form, whatever follows.
pub proof fn json_parse_of_encoding(value: JsonErrorView, rest: Seq<u8>)
    requires
        value.fits(),
    ensures
        JsonErrorView::parse(value.encoding() + rest) == Some(
            (value, value.encoding().len() as int),
        ),
{
    reveal(JsonErrorView::parse);
    let all = value.encoding() + rest;
    parse_code_of_encoding(value.code, text_encoding(value.message) + rest);
    assert(all =~= code_encoding(value.code) + (text_encoding(value.message) + rest));
    assert(all.skip(2) =~= text_encoding(value.message) + rest);
    parse_text_of_encoding(value.message, rest);
}

impl HttpErrorView {
    /// The variant without a field at this place of the declaration.
    pub open spec fn unit_of_rank(rank: int) -> Option<Self> {
        if rank == 0 {
            Some(HttpErrorView::MalformedChunkLength)
        }         else if rank == 1 {
            Some(HttpErrorView::MalformedChunkEnd)
        }         else if rank == 2 {
            Some(HttpErrorView::MalformedContentLength)
        }         else if rank == 3 {
            Some(HttpErrorView::HeadersOverflow)
        }         else if rank == 4 {
            Some(HttpErrorView::StatusLineOverflow)
        }         else if rank == 5 {
            Some(HttpErrorView::AddressNotFound)
        }         else if rank == 6 {
            Some(HttpErrorView::RedirectLocationMissing)
        }         else if rank == 7 {
            Some(HttpErrorView::InfiniteRedirectionLoop)
        }         else if rank == 8 {
            Some(HttpErrorView::TooManyRedirections)
        }         else if rank == 9 {
            Some(HttpErrorView::InvalidUtf8InResponse)
        }         else if rank == 10 {
            Some(HttpErrorView::PunycodeConversionFailed)
        }         else if rank == 11 {
            Some(HttpErrorView::HttpsFeatureNotEnabled)
        }         else if rank == 12 {
            Some(HttpErrorView::PunycodeFeatureNotEnabled)
        }         else if rank == 13 {
            Some(HttpErrorView::BadProxy)
        }         else if rank == 14 {
            Some(HttpErrorView::BadProxyCreds)
        }         else if rank == 15 {
            Some(HttpErrorView::ProxyConnect)
        }         else if rank == 16 {
            Some(HttpErrorView::InvalidProxyCreds)
        } else {
            None
        }
    }

    /// Whether every text and list inside is short enough for its length to
    /// be written down.
    pub open spec fn fits(self) -> bool {
        match self {
            HttpErrorView::Other(a0) => text_fits(a0),
            _ => true,
        }
    }

    /// The binary form: the place of the variant as one byte, then the fields.
    pub open spec fn encoding(self) -> Seq<u8> {
        match self {
            HttpErrorView::Other(a0) => seq![17u8] + text_encoding(a0),
            _ => seq![self.rank() as u8],
        }
    }

    /// Reads one value from the front of `bytes`: the value and the count of
    /// bytes read, or `None` where no value stands there.
    #[verifier::opaque]
    pub open spec fn parse(bytes: Seq<u8>) -> Option<(Self, int)> {
        if bytes.len() == 0 {
            None
        } else {
            let tag = bytes[0];
            let rest = bytes.skip(1);
            if tag == 17 {
                match parse_text(rest) {
                    Some((a0, n0)) => Some((HttpErrorView::Other(a0), 1 + n0)),
                    None => None,
                }
            } else {
                match Self::unit_of_rank(tag as int) {
                    Some(value) => Some((value, 1)),
                    None => None,
                }
            }
        }
    }
}

impl HttpError {
    /// The variant without a field at this place of the declaration.
    pub fn unit_of_rank_value(rank: u8) -> (r: Option<Self>)
        ensures
            match r {
                Some(value) => HttpErrorView::unit_of_rank(rank as int) == Some(value@),
                None => HttpErrorView::unit_of_rank(rank as int) is None,
            },
    {
        match rank {
            0 => Some(HttpError::MalformedChunkLength),
            1 => Some(HttpError::MalformedChunkEnd),
            2 => Some(HttpError::MalformedContentLength),
            3 => Some(HttpError::HeadersOverflow),
            4 => Some(HttpError::StatusLineOverflow),
            5 => Some(HttpError::AddressNotFound),
            6 => Some(HttpError::RedirectLocationMissing),
            7 => Some(HttpError::InfiniteRedirectionLoop),
            8 => Some(HttpError::TooManyRedirections),
            9 => Some(HttpError::InvalidUtf8InResponse),
            10 => Some(HttpError::PunycodeConversionFailed),
            11 => Some(HttpError::HttpsFeatureNotEnabled),
            12 => Some(HttpError::PunycodeFeatureNotEnabled),
            13 => Some(HttpError::BadProxy),
            14 => Some(HttpError::BadProxyCreds),
            15 => Some(HttpError::ProxyConnect),
            16 => Some(HttpError::InvalidProxyCreds),
            _ => None,
        }
    }

    /// Appends the binary form of `self`.
    pub fn encode(&self, out: &mut Vec<u8>)
        ensures
            final(out)@ == old(out)@ + self@.encoding(),
            self@.fits(),
    {
        out.push(self.rank_value());
        match self {
            HttpError::Other(x0) => {
                encode_text(x0.as_str(), out);
            },
            _ => {},
        }
        assert(out@ =~= old(out)@ + self@.encoding());
    }

    /// Reads one value from the front of `bytes`: the value and the count of
    /// bytes read, or `None` where no value stands there.
    pub fn decode(bytes: &[u8]) -> (r: Option<(Self, usize)>)
        ensures
            match r {
                Some((value, read)) => {
                    &&& HttpErrorView::parse(bytes@) == Some((value@, read as int))
                    &&& read <= bytes.len()
                },
                None => HttpErrorView::parse(bytes@) is None,
            },
    {
        proof {
            reveal(HttpErrorView::parse);
        }
        if bytes.len() == 0 {
            return None;
        }
        let tag = bytes[0];
        let rest = slice_subrange(bytes, 1, bytes.len());
        assert(rest@ =~= bytes@.skip(1));
        if tag == 17 {
            match decode_text(rest) {
                Some((x0, n0)) => Some((HttpError::Other(x0), 1 + n0)),
                None => None,
            }
        } else {
            match Self::unit_of_rank_value(tag) {
                Some(value) => Some((value, 1)),
                None => None,
            }
        }
    }

    /// The binary form of `self`.
    pub fn to_bytes(&self) -> (bytes: Vec<u8>)
        ensures
            bytes@ == self@.encoding(),
            self@.fits(),
    {
        let mut bytes: Vec<u8> = Vec::new();
        self.encode(&mut bytes);
        assert(bytes@ =~= self@.encoding());
        bytes
    }

    /// The value whose binary form `bytes` is, all of it; `None` where the
    /// bytes are no binary form, or more bytes follow one.
    pub fn from_bytes(bytes: &[u8]) -> (r: Option<Self>)
        ensures
            match r {
                Some(value) => HttpErrorView::parse(bytes@) == Some(
                    (value@, bytes@.len() as int),
                ),
                None => !(HttpErrorView::parse(bytes@) matches Some((_, read))
                    && read == bytes@.len()),
            },
    {
        match Self::decode(bytes) {
            Some((value, read)) => {
                if read == bytes.len() {
                    Some(value)
                } else {
                    None
                }
            },
            None => None,
        }
    }
}

/// A failure is read back from its binary form, whatever follows.
pub proof fn http_parse_of_encoding(value: HttpErrorView, rest: Seq<u8>)
    requires
        value.fits(),
    ensures
        HttpErrorView::parse(value.encoding() + rest) == Some(
            (value, value.encoding().len() as int),
        ),
{
    reveal(HttpErrorView::parse);
    let tag = value.rank() as u8;
    match value {
        HttpErrorView::Other(a0) => {
            after_tag(tag, text_encoding(a0), rest);
            parse_text_of_encoding(a0, rest);
        },
        _ => {
            after_tag(tag, Seq::empty(), rest);
        },
    }
}

/// Reading the binary form of a failure gives the value back, and reads all of it.
pub proof fn http_round_trip(value: HttpErrorView)
    requires
        value.fits(),
    ensures
        HttpErrorView::parse(value.encoding()) == Some(
            (value, value.encoding().len() as int),
        ),
{
    http_parse_of_encoding(value, Seq::empty());
    assert(value.encoding() + Seq::<u8>::empty() =~= value.encoding());
}

/// Two values with the same binary form are the same value.
pub proof fn http_encoding_is_injective(a: HttpErrorView, b: HttpErrorView)
    requires
        a.fits(),
        b.fits(),
        a.encoding() == b.encoding(),
    ensures
        a == b,
{
    http_round_trip(a);
    http_round_trip(b);
}

} // verus!
