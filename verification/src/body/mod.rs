//! The response body and its readers.

pub mod charset;
pub mod content;
pub mod info;
pub mod limit;
pub mod stream;

use crate::body::charset::{charset_decoder, charset_stream, transcoding_from, CharsetDecoder};
use crate::body::content::{content_decoder, content_stream, content_taps};
use crate::body::info::ResponseInfo;
use crate::body::limit::{limited, LimitReader, UnitHandler};
use crate::body::info::option_text;
use crate::body::stream::{
    chunk_len, drained, read_post, read_to_end, wire_taken, without_front, Ending, Reader,
    Stream,
};
use crate::error::Error;
use vstd::prelude::*;
use vstd::utf8::{decode_utf8, valid_utf8};

verus! {

/// What a reader delivers that reads the wire body `raw` under a cap of
/// `limit` bytes, through the decoders that `info` calls for. The cap counts
/// wire bytes, before any decoding.
pub open spec fn body_stream(raw: Seq<u8>, limit: nat, info: ResponseInfo) -> Stream {
    charset_stream(
        content_stream(limited(raw, limit), info.encoding()),
        transcoding_from(info.mime(), info.declared_charset()),
    )
}

/// Whether a body with the headers `info` is handed on as it is read: one
/// that is neither compressed nor transcoded. Every other body is read to
/// the cap and decoded when its first byte is asked for.
pub open spec fn streams(info: ResponseInfo) -> bool {
    content_taps(info.encoding()) && transcoding_from(info.mime(), info.declared_charset())
        is None
}

/// The body of a response.
#[derive(Debug)]
pub struct Body {
    info: ResponseInfo,
    unit_handler: UnitHandler,
}

/// The error that the standard library gives for bytes that are no UTF-8.
#[verifier::external_type_specification]
#[verifier::external_body]
pub struct ExFromUtf8Error(std::string::FromUtf8Error);

/// `String::from_utf8`: the text that `bytes` encode, where they are valid
/// UTF-8, and an error where they are not.
#[verifier::external_body]
fn string_from_utf8(bytes: Vec<u8>) -> (r: Result<String, std::string::FromUtf8Error>)
    ensures
        match r {
            Ok(s) => valid_utf8(bytes@) && s@ == decode_utf8(bytes@),
            Err(_) => !valid_utf8(bytes@),
        },
{
    String::from_utf8(bytes)
}

/// `std::io::Error::new`, with the kind `InvalidData`: the error that stands
/// for a body that is no text.
#[verifier::external_body]
fn invalid_data(source: std::string::FromUtf8Error) -> std::io::Error {
    std::io::Error::new(std::io::ErrorKind::InvalidData, source)
}

impl Body {
    /// What the headers said about this body.
    pub closed spec fn info(self) -> ResponseInfo {
        self.info
    }

    /// The wire bytes that have not been read yet.
    pub closed spec fn remaining(self) -> Seq<u8> {
        self.unit_handler.remaining()
    }

    /// The body of a response whose headers said `info` and whose unit
    /// delivers `unit`.
    pub fn new(unit: UnitHandler, info: ResponseInfo) -> (r: Self)
        ensures
            r.info() == info,
            r.remaining() == unit.remaining(),
    {
        Body { info, unit_handler: unit }
    }

    /// The MIME type of the `content-type` header, if there is one.
    pub fn mime_type(&self) -> (r: Option<&str>)
        ensures
            option_text(r) == self.info().mime(),
    {
        self.info.mime_type()
    }

    /// The charset of the `content-type` header, if it gives one.
    pub fn charset(&self) -> (r: Option<&str>)
        ensures
            option_text(r) == self.info().declared_charset(),
    {
        self.info.charset()
    }

    /// Makes a reader that lets at most `limit` wire bytes through: the
    /// charset decoder on the content decoder on the limit. Nothing is read
    /// here, and the reader does not hold the body: each read names it, see
    /// [`Body::read`]. What a reader leaves unread, a later reader finds.
    pub fn as_reader(&mut self, limit: u64) -> (r: CharsetDecoder)
        ensures
            *final(self) == *old(self),
            r.stream(old(self).remaining()) == body_stream(
                old(self).remaining(),
                limit as nat,
                old(self).info(),
            ),
            r.taps() == streams(old(self).info()),
            r.wire_due(old(self).remaining()) == chunk_len(
                old(self).remaining().len(),
                limit as nat,
            ),
    {
        let reader = LimitReader::new(limit);
        let reader = content_decoder(reader, self.info.content_encoding());
        charset_decoder(reader, self.info.mime_type(), self.info.charset())
    }

    /// Reads from this body through `reader`, which [`Body::as_reader`] made
    /// for it, into the front of `buf`. A reader that hands the body on as
    /// it is takes from it the bytes that it delivers; a decoder takes with
    /// its first read all that it is due, up to the cap.
    pub fn read(&mut self, reader: &mut CharsetDecoder, buf: &mut [u8]) -> (r: Result<
        usize,
        Error,
    >)
        ensures
            final(self).info() == old(self).info(),
            read_post(
                old(reader).stream(old(self).remaining()),
                final(reader).stream(final(self).remaining()),
                old(buf)@,
                final(buf)@,
                r,
            ),
            final(reader).taps() == old(reader).taps(),
            final(self).remaining() == without_front(
                old(self).remaining(),
                wire_taken(old(reader).taps(), old(reader).wire_due(old(self).remaining()), r),
            ),
            final(reader).wire_due(final(self).remaining()) == old(reader).wire_due(
                old(self).remaining(),
            ) - wire_taken(old(reader).taps(), old(reader).wire_due(old(self).remaining()), r),
    {
        reader.read(&mut self.unit_handler, buf)
    }

    /// Turns the body into a reader that lets at most `limit` wire bytes
    /// through.
    pub fn into_reader(self, limit: u64) -> (r: BodyReader)
        ensures
            r.pending() == body_stream(self.remaining(), limit as nat, self.info()),
    {
        let Body { info, unit_handler } = self;
        BodyReader::new(LimitReader::new(limit), unit_handler, &info)
    }

    /// Reads the body to its end, under a cap of `limit` wire bytes, as text.
    /// Fails as [`Body::read_to_vec`] does, and with [`Error::Io`] where what
    /// was read is no UTF-8.
    pub fn read_to_string(&mut self, limit: usize) -> (r: Result<String, Error>)
        ensures
            final(self).info() == old(self).info(),
            final(self).remaining() == without_front(
                old(self).remaining(),
                chunk_len(old(self).remaining().len(), limit as nat),
            ),
            ({
                let s = body_stream(old(self).remaining(), limit as nat, old(self).info());
                match s.end {
                    Ending::Clean => if valid_utf8(s.bytes) {
                        r matches Ok(text) && text@ == decode_utf8(s.bytes)
                    } else {
                        r matches Err(Error::Io(_))
                    },
                    Ending::Exceeded => r matches Err(Error::BodyExceedsLimit),
                    Ending::Corrupt => r matches Err(Error::Io(_)),
                }
            }),
    {
        match self.read_to_vec(limit) {
            Ok(bytes) => match string_from_utf8(bytes) {
                Ok(text) => Ok(text),
                Err(e) => Err(Error::Io(invalid_data(e))),
            },
            Err(e) => Err(e),
        }
    }

    /// Reads the body to its end, under a cap of `limit` wire bytes. Gives
    /// the decoded bytes where no more than `limit` wire bytes were left and
    /// they decode; fails with [`Error::BodyExceedsLimit`] where more were
    /// left, and with [`Error::Io`] where a decoder rejects them.
    pub fn read_to_vec(&mut self, limit: usize) -> (r: Result<Vec<u8>, Error>)
        ensures
            final(self).info() == old(self).info(),
            final(self).remaining() == without_front(
                old(self).remaining(),
                chunk_len(old(self).remaining().len(), limit as nat),
            ),
            drained(body_stream(old(self).remaining(), limit as nat, old(self).info()), r),
    {
        let mut reader = self.as_reader(limit as u64);
        read_to_end(&mut reader, &mut self.unit_handler)
    }
}

/// A reader of a body: the charset decoder on the content decoder on the
/// limit, on the wire body.
#[derive(Debug)]
pub struct BodyReader {
    unit_handler: UnitHandler,
    reader: CharsetDecoder,
}

impl BodyReader {
    /// What the reader will still deliver.
    pub closed spec fn pending(self) -> Stream {
        self.reader.stream(self.unit_handler.remaining())
    }

    fn new(reader: LimitReader, unit: UnitHandler, info: &ResponseInfo) -> (r: BodyReader)
        ensures
            r.pending() == body_stream(unit.remaining(), reader.left(), *info),
    {
        let reader = content_decoder(reader, info.content_encoding());
        let reader = charset_decoder(reader, info.mime_type(), info.charset());
        BodyReader { unit_handler: unit, reader }
    }

    /// Reads into the front of `buf`: as many of the pending bytes as fit,
    /// and once they are used up 0, or the error that the stream ends in.
    pub fn read(&mut self, buf: &mut [u8]) -> (r: Result<usize, Error>)
        ensures
            read_post(old(self).pending(), final(self).pending(), old(buf)@, final(buf)@, r),
    {
        self.reader.read(&mut self.unit_handler, buf)
    }
}

/// The cap holds: a reader never delivers more wire bytes than its limit,
/// it ends cleanly just where the body is no longer than the limit, and
/// where it is longer, what follows the bytes within the limit is the error.
pub proof fn lemma_limit_holds(raw: Seq<u8>, limit: nat)
    ensures
        limited(raw, limit).bytes.len() <= limit,
        limited(raw, limit).bytes.is_prefix_of(raw),
        limited(raw, limit).end == Ending::Clean <==> raw.len() <= limit,
        limited(raw, limit).end == Ending::Clean ==> limited(raw, limit).bytes == raw,
        limited(raw, limit).end == Ending::Exceeded ==> limited(raw, limit).bytes.len() == limit,
{
    assert(raw.take(raw.len() as int) =~= raw);
}

/// Reading is a function of what is read: two results of reading the same
/// stream to its end are both the same bytes, or both the same kind of
/// error.
pub proof fn lemma_reading_is_determined(
    s: Stream,
    first: Result<Vec<u8>, Error>,
    second: Result<Vec<u8>, Error>,
)
    requires
        drained(s, first),
        drained(s, second),
    ensures
        first is Ok <==> second is Ok,
        first is Ok ==> first->Ok_0@ == second->Ok_0@,
        first matches Err(Error::BodyExceedsLimit) <==> second matches Err(Error::BodyExceedsLimit),
        first matches Err(Error::Io(_)) <==> second matches Err(Error::Io(_)),
{
}

} // verus!
