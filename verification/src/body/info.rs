//! What the response headers say about the body.

use crate::body::charset::{transcodes, transcoding_from};
use crate::body::content::{content_taps, ContentEncoding};
use crate::text::{chars_of, has_prefix_at, split, strip_prefix, trim, trim_bounds};
use vstd::prelude::*;
use vstd::string::*;

verus! {

/// The header map of the `http` crate.
#[verifier::external_type_specification]
#[verifier::external_body]
#[verifier::reject_recursive_types(T)]
pub struct ExHeaderMap<T>(http::HeaderMap<T>);

/// A header value of the `http` crate.
#[verifier::external_type_specification]
#[verifier::external_body]
pub struct ExHeaderValue(http::HeaderValue);

/// The values that a header map holds under each name, the name in lower
/// case, the values in the order in which they were added.
pub uninterp spec fn header_values(headers: http::HeaderMap<http::HeaderValue>) -> Map<
    Seq<char>,
    Seq<Seq<u8>>,
>;

/// The bytes of a header value.
pub uninterp spec fn header_value_bytes(value: http::HeaderValue) -> Seq<u8>;

/// A header name as it is stored: lower-case letters, digits and hyphens.
pub open spec fn is_stored_name(name: Seq<char>) -> bool {
    forall|i: int|
        0 <= i < name.len() ==> {
            let c = #[trigger] name[i];
            ('a' <= c <= 'z') || ('0' <= c <= '9') || c == '-'
        }
}

/// The first value that `headers` holds under `name`.
pub open spec fn first_value(
    headers: http::HeaderMap<http::HeaderValue>,
    name: Seq<char>,
) -> Option<Seq<u8>> {
    if header_values(headers).contains_key(name) && header_values(headers)[name].len() > 0 {
        Some(header_values(headers)[name][0])
    } else {
        None
    }
}

/// A byte that `HeaderValue::to_str` accepts: printable ASCII, or a tab.
pub open spec fn is_visible_ascii(b: u8) -> bool {
    (32 <= b < 127) || b == 9
}

/// The text of a header value: its bytes as characters, where all of them
/// are visible ASCII.
pub open spec fn value_text(bytes: Seq<u8>) -> Option<Seq<char>> {
    if forall|i: int| 0 <= i < bytes.len() ==> is_visible_ascii(#[trigger] bytes[i]) {
        Some(Seq::new(bytes.len(), |i: int| bytes[i] as char))
    } else {
        None
    }
}

/// `HeaderMap::get` with a string key. The map looks a key up in lower
/// case, so the `requires` admits only keys that are written as names are
/// stored; for those the result is the first value under that very name,
/// and nothing where the map holds none. Not proved: that the map holds
/// what [`header_values`] names.
#[verifier::external_body]
fn header_get<'a>(headers: &'a http::HeaderMap<http::HeaderValue>, name: &str) -> (r: Option<
    &'a http::HeaderValue,
>)
    requires
        is_stored_name(name@),
    ensures
        match r {
            Some(v) => {
                &&& header_values(*headers).contains_key(name@)
                &&& header_values(*headers)[name@].len() > 0
                &&& header_values(*headers)[name@][0] == header_value_bytes(*v)
            },
            None => {
                ||| !header_values(*headers).contains_key(name@)
                ||| header_values(*headers)[name@].len() == 0
            },
        },
{
    headers.get(name)
}

/// `HeaderValue::to_str`: the value as text where every byte of it is
/// visible ASCII, and nothing otherwise. Not proved: that the text is made
/// of the bytes that [`header_value_bytes`] names.
#[verifier::external_body]
fn header_to_str<'a>(value: &'a http::HeaderValue) -> (r: Option<&'a str>)
    ensures
        match r {
            Some(s) => value_text(header_value_bytes(*value)) == Some(s@),
            None => value_text(header_value_bytes(*value)) is None,
        },
{
    value.to_str().ok()
}

/// The text of the first value under `name`, where there is one and it is
/// visible ASCII.
pub open spec fn header_text(
    headers: http::HeaderMap<http::HeaderValue>,
    name: Seq<char>,
) -> Option<Seq<char>> {
    match first_value(headers, name) {
        Some(bytes) => value_text(bytes),
        None => None,
    }
}

/// The MIME type of a `Content-Type` value: all that stands before the first
/// semicolon, as it is written.
pub open spec fn mime_of(content_type: Seq<char>) -> Seq<char> {
    split(content_type, ';')[0]
}

/// What a parameter of a `Content-Type` value gives as charset, if anything:
/// what follows `charset=` once the parameter is trimmed.
pub open spec fn charset_param(param: Seq<char>) -> Option<Seq<char>> {
    strip_prefix(trim(param), "charset="@)
}

/// The charset that a list of parameters declares: that of the last
/// parameter that gives one.
pub open spec fn charset_among(params: Seq<Seq<char>>) -> Option<Seq<char>>
    decreases params.len(),
{
    if params.len() == 0 {
        None
    } else {
        match charset_param(params.last()) {
            Some(c) => Some(c),
            None => charset_among(params.drop_last()),
        }
    }
}

/// The charset of a `Content-Type` value.
pub open spec fn charset_of(content_type: Seq<char>) -> Option<Seq<char>> {
    charset_among(split(content_type, ';').skip(1))
}

/// The characters of a string slice that may be absent.
pub open spec fn option_text(s: Option<&str>) -> Option<Seq<char>> {
    match s {
        Some(v) => Some(v@),
        None => None,
    }
}

/// The characters of a string that may be absent.
pub open spec fn text_of(s: Option<String>) -> Option<Seq<char>> {
    match s {
        Some(v) => Some(v@),
        None => None,
    }
}

/// The charset that the parameter `cs[from..to]` gives, if it gives one.
fn param_charset(content_type: &str, cs: &Vec<char>, from: usize, to: usize) -> (r: Option<String>)
    requires
        from <= to <= cs.len(),
        cs@ == content_type@,
    ensures
        text_of(r) == charset_param(cs@.subrange(from as int, to as int)),
{
    let key = chars_of("charset=");
    proof {
        reveal_strlit("charset=");
    }
    let (a, b) = trim_bounds(cs, from, to);
    if has_prefix_at(cs, a, b, &key) {
        let text = content_type.substring_char(a + 8, b);
        assert(cs@.subrange(a as int, b as int).skip(8) =~= cs@.subrange(a as int + 8, b as int));
        Some(text.to_owned())
    } else {
        None
    }
}

/// Adding a parameter to a list: the charset is the new parameter's where it
/// gives one, and otherwise stays what it was.
proof fn lemma_charset_among_push(pieces: Seq<Seq<char>>, piece: Seq<char>)
    requires
        pieces.len() >= 1,
    ensures
        charset_among(pieces.push(piece).skip(1)) == match charset_param(piece) {
            Some(c) => Some(c),
            None => charset_among(pieces.skip(1)),
        },
{
    let all = pieces.push(piece).skip(1);
    assert(all.last() == piece);
    assert(all.drop_last() =~= pieces.skip(1));
}

/// Splits a `Content-Type` value, such as `text/plain; charset=iso-8859-1`,
/// into its MIME type and its charset.
pub fn split_content_type(content_type: &str) -> (r: (Option<String>, Option<String>))
    ensures
        text_of(r.0) == Some(mime_of(content_type@)),
        text_of(r.1) == charset_of(content_type@),
{
    let cs = chars_of(content_type);
    let n = cs.len();
    let mut mime_type: Option<String> = None;
    let mut charset: Option<String> = None;
    let mut start: usize = 0;
    let mut i: usize = 0;
    let ghost mut done: Seq<Seq<char>> = Seq::empty();
    proof {
        assert(cs@.take(0) =~= Seq::<char>::empty());
        assert(done.push(cs@.subrange(0, 0)) =~~= seq![Seq::<char>::empty()]);
    }
    while i < n
        invariant
            n == cs@.len(),
            cs@ == content_type@,
            start <= i <= n,
            split(cs@.take(i as int), ';') == done.push(cs@.subrange(start as int, i as int)),
            done.len() == 0 <==> mime_type is None,
            done.len() == 0 ==> charset is None,
            done.len() > 0 ==> text_of(mime_type) == Some(done[0]),
            done.len() > 0 ==> text_of(charset) == charset_among(done.skip(1)),
        decreases n - i,
    {
        let ghost piece = cs@.subrange(start as int, i as int);
        proof {
            assert(cs@.take(i as int + 1).drop_last() =~= cs@.take(i as int));
            assert(done.push(piece).drop_last() =~= done);
        }
        if cs[i] == ';' {
            if mime_type.is_none() {
                mime_type = Some(content_type.substring_char(start, i).to_owned());
                proof {
                    assert(done.push(piece).skip(1) =~= Seq::<Seq<char>>::empty());
                }
            } else {
                match param_charset(content_type, &cs, start, i) {
                    Some(c) => {
                        charset = Some(c);
                    },
                    None => {},
                }
                proof {
                    lemma_charset_among_push(done, piece);
                }
            }
            proof {
                done = done.push(piece);
                assert(cs@.subrange(i as int + 1, i as int + 1) =~= Seq::<char>::empty());
            }
            start = i + 1;
        } else {
            proof {
                assert(piece.push(cs@[i as int]) =~= cs@.subrange(start as int, i as int + 1));
            }
        }
        i += 1;
    }
    let ghost piece = cs@.subrange(start as int, n as int);
    proof {
        assert(cs@.take(n as int) =~= cs@);
    }
    if mime_type.is_none() {
        mime_type = Some(content_type.substring_char(start, n).to_owned());
        proof {
            assert(done.push(piece).skip(1) =~= Seq::<Seq<char>>::empty());
        }
    } else {
        match param_charset(content_type, &cs, start, n) {
            Some(c) => {
                charset = Some(c);
            },
            None => {},
        }
        proof {
            lemma_charset_among_push(done, piece);
        }
    }
    (mime_type, charset)
}

/// What the headers of a response say about its body.
#[derive(Debug)]
pub struct ResponseInfo {
    content_encoding: ContentEncoding,
    mime_type: Option<String>,
    charset: Option<String>,
}

impl Clone for ResponseInfo {
    fn clone(&self) -> (r: Self)
        ensures
            r.encoding() == self.encoding(),
            r.mime() == self.mime(),
            r.declared_charset() == self.declared_charset(),
    {
        ResponseInfo {
            content_encoding: self.content_encoding,
            mime_type: match &self.mime_type {
                Some(s) => Some(s.clone()),
                None => None,
            },
            charset: match &self.charset {
                Some(s) => Some(s.clone()),
                None => None,
            },
        }
    }
}

impl ResponseInfo {
    /// The content encoding.
    pub closed spec fn encoding(self) -> ContentEncoding {
        self.content_encoding
    }

    /// The MIME type, if the response declares one.
    pub closed spec fn mime(self) -> Option<Seq<char>> {
        text_of(self.mime_type)
    }

    /// The charset, if the response declares one.
    pub closed spec fn declared_charset(self) -> Option<Seq<char>> {
        text_of(self.charset)
    }

    /// The content encoding.
    pub fn content_encoding(&self) -> (r: ContentEncoding)
        ensures
            r == self.encoding(),
    {
        self.content_encoding
    }

    /// The MIME type, if the response declares one.
    pub fn mime_type(&self) -> (r: Option<&str>)
        ensures
            option_text(r) == self.mime(),
    {
        match &self.mime_type {
            Some(s) => Some(s.as_str()),
            None => None,
        }
    }

    /// The charset, if the response declares one.
    pub fn charset(&self) -> (r: Option<&str>)
        ensures
            option_text(r) == self.declared_charset(),
    {
        match &self.charset {
            Some(s) => Some(s.as_str()),
            None => None,
        }
    }

    /// Whether the body is handed on as it is read: whether it is neither
    /// compressed nor transcoded.
    pub fn is_streamed(&self) -> (r: bool)
        ensures
            r == (content_taps(self.encoding()) && transcoding_from(
                self.mime(),
                self.declared_charset(),
            ) is None),
    {
        let plain = match self.content_encoding {
            ContentEncoding::Identity => true,
            ContentEncoding::Unknown => true,
            _ => false,
        };
        plain && !transcodes(self.mime_type(), self.charset())
    }

    /// The content encoding that `headers` declare: none without a
    /// `content-encoding` header that is text, else what its first value says.
    pub open spec fn encoding_of(headers: http::HeaderMap<http::HeaderValue>) -> ContentEncoding {
        match header_text(headers, "content-encoding"@) {
            Some(v) => ContentEncoding::of(v),
            None => ContentEncoding::Identity,
        }
    }

    /// Reads the content encoding, the MIME type and the charset off the
    /// `content-encoding` and `content-type` headers.
    pub fn new(headers: &http::HeaderMap<http::HeaderValue>) -> (r: Self)
        ensures
            r.encoding() == Self::encoding_of(*headers),
            r.mime() == match header_text(*headers, "content-type"@) {
                Some(v) => Some(mime_of(v)),
                None => None,
            },
            r.declared_charset() == match header_text(*headers, "content-type"@) {
                Some(v) => charset_of(v),
                None => None,
            },
    {
        proof {
            reveal_strlit("content-encoding");
            reveal_strlit("content-type");
        }
        let encoding_text = match header_get(headers, "content-encoding") {
            Some(v) => header_to_str(v),
            None => None,
        };
        let content_encoding = match encoding_text {
            Some(s) => ContentEncoding::from(s),
            None => ContentEncoding::Identity,
        };
        let type_text = match header_get(headers, "content-type") {
            Some(v) => header_to_str(v),
            None => None,
        };
        let (mime_type, charset) = match type_text {
            Some(s) => split_content_type(s),
            None => (None, None),
        };
        ResponseInfo { content_encoding, mime_type, charset }
    }

    /// What a response says that declares the given values.
    pub fn of(content_encoding: ContentEncoding, content_type: Option<&str>) -> (r: Self)
        ensures
            r.encoding() == content_encoding,
            r.mime() == match content_type {
                Some(v) => Some(mime_of(v@)),
                None => None,
            },
            r.declared_charset() == match content_type {
                Some(v) => charset_of(v@),
                None => None,
            },
    {
        let (mime_type, charset) = match content_type {
            Some(s) => split_content_type(s),
            None => (None, None),
        };
        ResponseInfo { content_encoding, mime_type, charset }
    }
}

} // verus!
