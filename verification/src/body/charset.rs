//! Charset decoding: the layer that turns a text body into UTF-8.

use crate::body::content::{Buffered, ContentDecoder};
use crate::body::info::option_text;
use crate::body::limit::UnitHandler;
use crate::body::stream::{drain, Ending, Reader, Stream};
use crate::error::Error;
use crate::text::{starts_with, str_eq};
use vstd::prelude::*;
use vstd::string::*;
use vstd::utf8::{encode_utf8, valid_utf8};

verus! {

/// A character encoding of the `encoding_rs` crate.
#[verifier::external_type_specification]
#[verifier::external_body]
pub struct ExEncoding(encoding_rs::Encoding);

/// The name of an encoding.
pub uninterp spec fn encoding_name(encoding: encoding_rs::Encoding) -> Seq<char>;

/// The name of the encoding that a charset label stands for, as the Encoding
/// Standard lists labels; `None` for a label it does not list.
pub uninterp spec fn label_encoding(label: Seq<u8>) -> Option<Seq<char>>;

/// The UTF-8 text that `raw` decodes to in the encoding of the name `name`.
/// A byte order mark at the start of `raw` decides the encoding in place of
/// the name and is left out; what cannot be decoded becomes U+FFFD.
pub uninterp spec fn charset_decoded(name: Seq<char>, raw: Seq<u8>) -> Seq<u8>;

/// The longest input that is handed to the transcoder, which sizes its
/// output at up to three bytes, and a few more, for each byte of input.
pub open spec fn transcode_max() -> nat {
    (usize::MAX / 8) as nat
}

/// `encoding_rs::Encoding::for_label`: the encoding that `label` stands
/// for, if it stands for one. Not proved: that it is the encoding whose name
/// [`label_encoding`] gives.
#[verifier::external_body]
fn for_label(label: &[u8]) -> (r: Option<&'static encoding_rs::Encoding>)
    ensures
        match r {
            Some(e) => label_encoding(label@) == Some(encoding_name(*e)),
            None => label_encoding(label@) is None,
        },
{
    encoding_rs::Encoding::for_label(label)
}

/// `encoding_rs::Encoding::name`: the name of the encoding.
#[verifier::external_body]
fn name_of(encoding: &'static encoding_rs::Encoding) -> (r: &'static str)
    ensures
        r@ == encoding_name(*encoding),
{
    encoding.name()
}

/// `encoding_rs::Encoding::decode`: `raw` as UTF-8 text. The outside
/// function panics where the size of its output buffer overflows: the
/// `requires` leaves such input out. Not proved: that the bytes handed back
/// are what [`charset_decoded`] names; they are the bytes of a `String`.
#[verifier::external_body]
fn decode(encoding: &'static encoding_rs::Encoding, raw: &[u8]) -> (r: Vec<u8>)
    requires
        raw@.len() <= transcode_max(),
    ensures
        r@ == charset_decoded(encoding_name(*encoding), raw@),
        valid_utf8(r@),
{
    encoding.decode(raw).0.into_owned().into_bytes()
}

/// Whether a MIME type is a text type.
pub open spec fn is_text(mime_type: Option<Seq<char>>) -> bool {
    mime_type matches Some(m) && "text/"@.is_prefix_of(m)
}

/// The name of the encoding from which a body is transcoded; `None` where
/// it passes through: where it is no text, where no charset is declared,
/// where the declared one is not known, and where it is UTF-8 already.
pub open spec fn transcoding_from(
    mime_type: Option<Seq<char>>,
    charset: Option<Seq<char>>,
) -> Option<Seq<char>> {
    if is_text(mime_type) && charset is Some {
        match label_encoding(encode_utf8(charset->0)) {
            Some(name) => if name == "UTF-8"@ {
                None
            } else {
                Some(name)
            },
            None => None,
        }
    } else {
        None
    }
}

/// What the transcoder from the encoding `name` makes of the stream below
/// it: the text of the bytes that the stream delivers, and then the failure
/// of the stream, if it ends in one. Input longer than [`transcode_max`] is
/// refused as exceeding the limit.
pub open spec fn transcoded_stream(below: Stream, name: Seq<char>) -> Stream {
    if below.bytes.len() <= transcode_max() {
        Stream { bytes: charset_decoded(name, below.bytes), end: below.end }
    } else {
        Stream { bytes: Seq::empty(), end: Ending::Exceeded }
    }
}

/// What the charset decoder delivers over the stream `below`.
pub open spec fn charset_stream(below: Stream, from: Option<Seq<char>>) -> Stream {
    match from {
        Some(name) => transcoded_stream(below, name),
        None => below,
    }
}

/// The encoding from which a body of type `mime_type` in `charset` is
/// transcoded, if it is transcoded.
fn transcoding(mime_type: Option<&str>, charset: Option<&str>) -> (r: Option<
    &'static encoding_rs::Encoding,
>)
    ensures
        match r {
            Some(e) => transcoding_from(option_text(mime_type), option_text(charset)) == Some(
                encoding_name(*e),
            ),
            None => transcoding_from(option_text(mime_type), option_text(charset)) is None,
        },
{
    let is_text = match mime_type {
        Some(m) => starts_with(m, "text/"),
        None => false,
    };
    if !is_text {
        return None;
    }
    match charset {
        Some(c) => match for_label(c.as_bytes()) {
            Some(e) => {
                if str_eq(name_of(e), "UTF-8") {
                    None
                } else {
                    Some(e)
                }
            },
            None => None,
        },
        None => None,
    }
}

/// Whether a body of type `mime_type` in `charset` is transcoded: whether
/// it is text in a known charset other than UTF-8.
pub fn transcodes(mime_type: Option<&str>, charset: Option<&str>) -> (r: bool)
    ensures
        r == transcoding_from(option_text(mime_type), option_text(charset)) is Some,
{
    transcoding(mime_type, charset).is_some()
}

/// A transcoder of a text body. It reads nothing until it is read from; its
/// first read takes all that the reader below it delivers and transcodes it.
#[derive(Debug)]
pub struct Transcoder {
    pending: Option<ContentDecoder>,
    encoding: &'static encoding_rs::Encoding,
    held: Buffered,
}

impl Reader for Transcoder {
    closed spec fn stream(&self, source: Seq<u8>) -> Stream {
        match self.pending {
            Some(reader) => transcoded_stream(reader.stream(source), encoding_name(*self.encoding)),
            None => self.held.held(),
        }
    }

    open spec fn taps(&self) -> bool {
        false
    }

    closed spec fn wire_due(&self, source: Seq<u8>) -> nat {
        match self.pending {
            Some(reader) => reader.wire_due(source),
            None => 0,
        }
    }

    proof fn lemma_wire(&self, source: Seq<u8>) {
        match self.pending {
            Some(reader) => reader.lemma_wire(source),
            None => {},
        }
    }

    fn read(&mut self, unit: &mut UnitHandler, buf: &mut [u8]) -> (r: Result<usize, Error>) {
        match self.pending.take() {
            Some(reader) => {
                let mut reader = reader;
                let (raw, fault) = drain(&mut reader, unit);
                if raw.len() <= usize::MAX / 8 {
                    self.held = Buffered::holding(decode(self.encoding, raw.as_slice()), fault);
                } else {
                    self.held = Buffered::holding(Vec::new(), Some(Error::BodyExceedsLimit));
                }
            },
            None => {},
        }
        self.held.read(unit, buf)
    }
}

/// The reader that turns text into UTF-8.
#[derive(Debug)]
pub enum CharsetDecoder {
    /// The transcoder of a body in another charset.
    Decoder(Transcoder),
    /// The body is handed on as it is.
    PassThrough(ContentDecoder),
}

/// Picks the charset decoder for a body of type `mime_type` in `charset` and
/// puts it on `reader`. Nothing is read here. Only text in a known charset
/// other than UTF-8 is transcoded; every other body passes through
/// untouched.
pub fn charset_decoder(reader: ContentDecoder, mime_type: Option<&str>, charset: Option<&str>) -> (r:
    CharsetDecoder)
    ensures
        forall|source: Seq<u8>| #[trigger]
            r.stream(source) == charset_stream(
                reader.stream(source),
                transcoding_from(option_text(mime_type), option_text(charset)),
            ),
        forall|source: Seq<u8>| #[trigger] r.wire_due(source) == reader.wire_due(source),
        r is Decoder <==> transcoding_from(option_text(mime_type), option_text(charset)) is Some,
        r.taps() == (reader.taps() && r is PassThrough),
{
    match transcoding(mime_type, charset) {
        Some(encoding) => CharsetDecoder::Decoder(
            Transcoder { pending: Some(reader), encoding, held: Buffered::empty() },
        ),
        None => CharsetDecoder::PassThrough(reader),
    }
}

impl CharsetDecoder {
    /// The name of the decoder, for a log or a debugger.
    pub fn name(&self) -> (r: &'static str)
        ensures
            r@ == match self {
                CharsetDecoder::Decoder(_) => "Decoder"@,
                CharsetDecoder::PassThrough(_) => "PassThrough"@,
            },
    {
        match self {
            CharsetDecoder::Decoder(_) => "Decoder",
            CharsetDecoder::PassThrough(_) => "PassThrough",
        }
    }
}

impl Reader for CharsetDecoder {
    open spec fn stream(&self, source: Seq<u8>) -> Stream {
        match self {
            CharsetDecoder::Decoder(v) => v.stream(source),
            CharsetDecoder::PassThrough(v) => v.stream(source),
        }
    }

    open spec fn taps(&self) -> bool {
        self matches CharsetDecoder::PassThrough(v) && v.taps()
    }

    open spec fn wire_due(&self, source: Seq<u8>) -> nat {
        match self {
            CharsetDecoder::Decoder(v) => v.wire_due(source),
            CharsetDecoder::PassThrough(v) => v.wire_due(source),
        }
    }

    proof fn lemma_wire(&self, source: Seq<u8>) {
        match self {
            CharsetDecoder::Decoder(v) => v.lemma_wire(source),
            CharsetDecoder::PassThrough(v) => v.lemma_wire(source),
        }
    }

    fn read(&mut self, unit: &mut UnitHandler, buf: &mut [u8]) -> (r: Result<usize, Error>) {
        match self {
            CharsetDecoder::Decoder(v) => v.read(unit, buf),
            CharsetDecoder::PassThrough(v) => v.read(unit, buf),
        }
    }
}

} // verus!
