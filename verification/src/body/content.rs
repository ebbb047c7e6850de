//! Content decoding: the layer that undoes `Content-Encoding`.

use crate::body::limit::{LimitReader, UnitHandler};
use crate::body::stream::{copy_to_front, drain, Ending, Reader, Stream};
use crate::error::Error;
use crate::text::str_eq;
use std::io::Read;
use vstd::prelude::*;

verus! {

/// What the `Content-Encoding` header of a response says.
#[derive(Debug, Clone, Copy, PartialEq, Eq, Structural)]
pub enum ContentEncoding {
    /// No header: the body is sent as it is.
    Identity,
    /// `gzip`.
    Gzip,
    /// `br`.
    Brotli,
    /// Any other value.
    Unknown,
}

impl ContentEncoding {
    /// The encoding that a header value names.
    pub open spec fn of(s: Seq<char>) -> ContentEncoding {
        if s == "gzip"@ {
            ContentEncoding::Gzip
        } else if s == "br"@ {
            ContentEncoding::Brotli
        } else {
            ContentEncoding::Unknown
        }
    }

    /// Reads a `Content-Encoding` header value: `gzip`, `br`, or unknown.
    pub fn from(s: &str) -> (r: ContentEncoding)
        ensures
            r == ContentEncoding::of(s@),
    {
        if str_eq(s, "gzip") {
            ContentEncoding::Gzip
        } else if str_eq(s, "br") {
            ContentEncoding::Brotli
        } else {
            ContentEncoding::Unknown
        }
    }
}

/// The size of the buffer that the brotli decoder works with.
pub const BROTLI_BUFFER_SIZE: usize = 4096;

/// What the gzip decoder makes of `raw`: the bytes it puts out, and whether
/// it comes to the end of `raw` without a failure.
pub uninterp spec fn gzip_decoded(raw: Seq<u8>) -> (Seq<u8>, bool);

/// What the brotli decoder with a buffer of `buffer_size` bytes makes of
/// `raw`: the bytes it puts out, and whether it comes to the end without a
/// failure.
pub uninterp spec fn brotli_decoded(raw: Seq<u8>, buffer_size: usize) -> (Seq<u8>, bool);

/// Runs `flate2::read::MultiGzDecoder` over `raw` until it reports the end
/// or an error, and hands back what it put out until then, beside the
/// error. Not proved: that these are what [`gzip_decoded`] names for `raw`.
#[verifier::external_body]
fn gunzip(raw: &[u8]) -> (r: (Vec<u8>, Option<std::io::Error>))
    ensures
        gzip_decoded(raw@) == (r.0@, r.1 is None),
{
    let mut out = Vec::new();
    let fault = flate2::read::MultiGzDecoder::new(raw).read_to_end(&mut out).err();
    (out, fault)
}

/// Runs `brotli_decompressor::Decompressor`, with a buffer of `buffer_size`
/// bytes, over `raw` until it reports the end or an error, and hands back
/// what it put out until then, beside the error. Not proved: that these are
/// what [`brotli_decoded`] names for `raw` and `buffer_size`.
#[verifier::external_body]
fn unbrotli(raw: &[u8], buffer_size: usize) -> (r: (Vec<u8>, Option<std::io::Error>))
    ensures
        brotli_decoded(raw@, buffer_size) == (r.0@, r.1 is None),
{
    let mut out = Vec::new();
    let fault = brotli_decompressor::Decompressor::new(raw, buffer_size).read_to_end(&mut out).err();
    (out, fault)
}

/// What the decoder for `encoding` makes of `raw`: the bytes it puts out,
/// and whether it comes to the end without a failure. With no encoding, or
/// one that is not known, the bytes are `raw` itself.
pub open spec fn inflated(raw: Seq<u8>, encoding: ContentEncoding) -> (Seq<u8>, bool) {
    match encoding {
        ContentEncoding::Gzip => gzip_decoded(raw),
        ContentEncoding::Brotli => brotli_decoded(raw, BROTLI_BUFFER_SIZE),
        _ => (raw, true),
    }
}

/// Decodes `raw` as `encoding` says: what the decoder put out, and the
/// failure that stopped it, if one did.
pub fn inflate(raw: Vec<u8>, encoding: ContentEncoding) -> (r: (Vec<u8>, Option<std::io::Error>))
    ensures
        inflated(raw@, encoding) == (r.0@, r.1 is None),
{
    match encoding {
        ContentEncoding::Gzip => gunzip(raw.as_slice()),
        ContentEncoding::Brotli => unbrotli(raw.as_slice(), BROTLI_BUFFER_SIZE),
        _ => (raw, None),
    }
}

/// A reader that holds all it will deliver in memory: the output of a
/// decoder that has run, and the failure it ended in.
#[derive(Debug)]
pub struct Buffered {
    out: Vec<u8>,
    pos: usize,
    exceeded: bool,
    fault: Option<std::io::Error>,
}

/// The ending that a failure stands for: none is the clean end, a failure of
/// a decoder is delivered once, and every other failure is that of the
/// limit, which stays.
pub open spec fn ending_of(fault: Option<Error>) -> Ending {
    match fault {
        None => Ending::Clean,
        Some(Error::Io(_)) => Ending::Corrupt,
        Some(_) => Ending::Exceeded,
    }
}

impl Buffered {
    /// What is left of the held bytes, and what follows them.
    pub closed spec fn held(self) -> Stream {
        Stream {
            bytes: if self.pos <= self.out.len() {
                self.out@.skip(self.pos as int)
            } else {
                Seq::empty()
            },
            end: if self.exceeded {
                Ending::Exceeded
            } else if self.fault is Some {
                Ending::Corrupt
            } else {
                Ending::Clean
            },
        }
    }

    /// A reader that delivers `out` and then ends as `fault` says.
    pub fn holding(out: Vec<u8>, fault: Option<Error>) -> (r: Self)
        ensures
            r.held() == (Stream { bytes: out@, end: ending_of(fault) }),
    {
        let ghost bytes = out@;
        let r = match fault {
            None => Buffered { out, pos: 0, exceeded: false, fault: None },
            Some(Error::Io(e)) => Buffered { out, pos: 0, exceeded: false, fault: Some(e) },
            Some(_) => Buffered { out, pos: 0, exceeded: true, fault: None },
        };
        assert(r.held().bytes =~= bytes);
        r
    }

    /// A reader that delivers nothing and ends cleanly.
    pub fn empty() -> (r: Self)
        ensures
            r.held() == (Stream { bytes: Seq::empty(), end: Ending::Clean }),
    {
        Buffered::holding(Vec::new(), None)
    }
}

impl Reader for Buffered {
    open spec fn stream(&self, source: Seq<u8>) -> Stream {
        self.held()
    }

    open spec fn taps(&self) -> bool {
        false
    }

    open spec fn wire_due(&self, source: Seq<u8>) -> nat {
        0
    }

    proof fn lemma_wire(&self, source: Seq<u8>) {
    }

    fn read(&mut self, unit: &mut UnitHandler, buf: &mut [u8]) -> (r: Result<usize, Error>)
        ensures
            *final(unit) == *old(unit),
    {
        proof {
            assert(!self.taps());
            assert(self.wire_due(unit.remaining()) == 0);
            assert(self.stream(unit.remaining()) == self.held());
        }
        let avail = if self.pos <= self.out.len() {
            self.out.len() - self.pos
        } else {
            0
        };
        if avail == 0 {
            assert(self.held().bytes =~= Seq::<u8>::empty());
            if self.exceeded {
                Err(Error::BodyExceedsLimit)
            } else {
                match self.fault.take() {
                    Some(e) => Err(Error::Io(e)),
                    None => Ok(0),
                }
            }
        } else {
            let n = if avail <= buf.len() {
                avail
            } else {
                buf.len()
            };
            copy_to_front(buf, &self.out, self.pos, n);
            self.pos = self.pos + n;
            proof {
                assert(self.out@.subrange(old(self).pos as int, old(self).pos + n) =~= old(
                    self,
                ).held().bytes.take(n as int));
                assert(final(self).held().bytes =~= old(self).held().bytes.skip(n as int));
            }
            Ok(n)
        }
    }
}

/// What a decoder makes of the stream below it: what it puts out of the
/// bytes that the stream delivers, and then the failure of the stream, or
/// else its own.
pub open spec fn decoded_stream(below: Stream, decoded: (Seq<u8>, bool)) -> Stream {
    Stream {
        bytes: decoded.0,
        end: match below.end {
            Ending::Clean => if decoded.1 {
                Ending::Clean
            } else {
                Ending::Corrupt
            },
            Ending::Exceeded => Ending::Exceeded,
            Ending::Corrupt => Ending::Corrupt,
        },
    }
}

/// A decoder of a compressed body. It reads nothing until it is read from;
/// its first read takes the wire body up to the cap and decodes it.
#[derive(Debug)]
pub struct Inflater {
    pending: Option<LimitReader>,
    encoding: ContentEncoding,
    held: Buffered,
}

impl Inflater {
    /// A decoder for `encoding` on `reader`, which has read nothing yet.
    pub fn new(reader: LimitReader, encoding: ContentEncoding) -> (r: Self)
        ensures
            forall|source: Seq<u8>| #[trigger]
                r.stream(source) == decoded_stream(
                    reader.stream(source),
                    inflated(reader.stream(source).bytes, encoding),
                ),
            forall|source: Seq<u8>| #[trigger] r.wire_due(source) == reader.wire_due(source),
    {
        Inflater { pending: Some(reader), encoding, held: Buffered::empty() }
    }
}

impl Reader for Inflater {
    closed spec fn stream(&self, source: Seq<u8>) -> Stream {
        match self.pending {
            Some(reader) => decoded_stream(
                reader.stream(source),
                inflated(reader.stream(source).bytes, self.encoding),
            ),
            None => self.held.held(),
        }
    }

    open spec fn taps(&self) -> bool {
        false
    }

    closed spec fn wire_due(&self, source: Seq<u8>) -> nat {
        match self.pending {
            Some(reader) => reader.wire_due(source),
            None => 0,
        }
    }

    proof fn lemma_wire(&self, source: Seq<u8>) {
    }

    fn read(&mut self, unit: &mut UnitHandler, buf: &mut [u8]) -> (r: Result<usize, Error>) {
        match self.pending.take() {
            Some(reader) => {
                let mut reader = reader;
                let (raw, below) = drain(&mut reader, unit);
                let (out, fault) = inflate(raw, self.encoding);
                let fault = match below {
                    Some(e) => Some(e),
                    None => match fault {
                        Some(e) => Some(Error::Io(e)),
                        None => None,
                    },
                };
                self.held = Buffered::holding(out, fault);
            },
            None => {},
        }
        self.held.read(unit, buf)
    }
}

/// The reader that undoes the content encoding.
#[derive(Debug)]
pub enum ContentDecoder {
    /// The decoder of a gzip body.
    Gzip(Inflater),
    /// The decoder of a brotli body.
    Brotli(Inflater),
    /// The body is handed on as it is.
    PassThrough(LimitReader),
}

/// What the content decoder for `encoding` delivers over the stream `below`.
pub open spec fn content_stream(below: Stream, encoding: ContentEncoding) -> Stream {
    match encoding {
        ContentEncoding::Identity => below,
        ContentEncoding::Unknown => below,
        _ => decoded_stream(below, inflated(below.bytes, encoding)),
    }
}

/// Whether the content decoder for `encoding` hands the wire body on as it
/// reads it.
pub open spec fn content_taps(encoding: ContentEncoding) -> bool {
    encoding == ContentEncoding::Identity || encoding == ContentEncoding::Unknown
}

/// Picks the decoder for `content_encoding` and puts it on `reader`.
/// Nothing is read here. With no encoding, or one that is not known, the
/// body passes through untouched.
pub fn content_decoder(reader: LimitReader, content_encoding: ContentEncoding) -> (r:
    ContentDecoder)
    ensures
        forall|source: Seq<u8>| #[trigger]
            r.stream(source) == content_stream(reader.stream(source), content_encoding),
        forall|source: Seq<u8>| #[trigger] r.wire_due(source) == reader.wire_due(source),
        r.taps() == content_taps(content_encoding),
        match content_encoding {
            ContentEncoding::Gzip => r is Gzip,
            ContentEncoding::Brotli => r is Brotli,
            _ => r is PassThrough,
        },
{
    match content_encoding {
        ContentEncoding::Identity => ContentDecoder::PassThrough(reader),
        ContentEncoding::Gzip => ContentDecoder::Gzip(Inflater::new(reader, content_encoding)),
        ContentEncoding::Brotli => ContentDecoder::Brotli(Inflater::new(reader, content_encoding)),
        ContentEncoding::Unknown => ContentDecoder::PassThrough(reader),
    }
}

impl ContentDecoder {
    /// The name of the decoder, for a log or a debugger.
    pub fn name(&self) -> (r: &'static str)
        ensures
            r@ == match self {
                ContentDecoder::Gzip(_) => "Gzip"@,
                ContentDecoder::Brotli(_) => "Brotli"@,
                ContentDecoder::PassThrough(_) => "PassThrough"@,
            },
    {
        match self {
            ContentDecoder::Gzip(_) => "Gzip",
            ContentDecoder::Brotli(_) => "Brotli",
            ContentDecoder::PassThrough(_) => "PassThrough",
        }
    }
}

impl Reader for ContentDecoder {
    open spec fn stream(&self, source: Seq<u8>) -> Stream {
        match self {
            ContentDecoder::Gzip(v) => v.stream(source),
            ContentDecoder::Brotli(v) => v.stream(source),
            ContentDecoder::PassThrough(v) => v.stream(source),
        }
    }

    open spec fn taps(&self) -> bool {
        self is PassThrough
    }

    open spec fn wire_due(&self, source: Seq<u8>) -> nat {
        match self {
            ContentDecoder::Gzip(v) => v.wire_due(source),
            ContentDecoder::Brotli(v) => v.wire_due(source),
            ContentDecoder::PassThrough(v) => v.wire_due(source),
        }
    }

    proof fn lemma_wire(&self, source: Seq<u8>) {
        match self {
            ContentDecoder::Gzip(v) => v.lemma_wire(source),
            ContentDecoder::Brotli(v) => v.lemma_wire(source),
            ContentDecoder::PassThrough(v) => v.lemma_wire(source),
        }
    }

    fn read(&mut self, unit: &mut UnitHandler, buf: &mut [u8]) -> (r: Result<usize, Error>) {
        match self {
            ContentDecoder::Gzip(v) => v.read(unit, buf),
            ContentDecoder::Brotli(v) => v.read(unit, buf),
            ContentDecoder::PassThrough(v) => v.read(unit, buf),
        }
    }
}

} // verus!
