//! Blobs: the file contents of git, as text or as raw bytes.
use crate::client::{
    ClientError, ClientResponseError, Encoding, Method, Payload, PayloadView, Request, RequestView,
};
use crate::repository::HandleRepository;
use crate::repository::sha::Sha;
use crate::text::{chars_of, same_text, string_of};
use vstd::prelude::*;
use vstd::slice::slice_to_vec;
use vstd::string::StringExecFns;

verus! {

/// `base64::DecodeError`: why the engine could not read a text. Nothing is said of what it holds.
#[verifier::external_type_specification]
#[verifier::external_body]
pub struct ExDecodeError(base64::DecodeError);

/// What the standard engine of `base64` writes for the given bytes.
pub uninterp spec fn base64_text(bytes: Seq<u8>) -> Seq<char>;

/// What the standard engine of `base64` reads from the given text, where it reads it at all.
pub uninterp spec fn base64_bytes(text: Seq<char>) -> Option<Seq<u8>>;

/// The characters with the Unicode property White_Space.
pub open spec fn is_white_space(c: char) -> bool {
    let code = c as u32;
    ||| 0x09 <= code <= 0x0d
    ||| code == 0x20
    ||| code == 0x85
    ||| code == 0xa0
    ||| code == 0x1680
    ||| 0x2000 <= code <= 0x200a
    ||| code == 0x2028
    ||| code == 0x2029
    ||| code == 0x202f
    ||| code == 0x205f
    ||| code == 0x3000
}

/// `text` without its white space, the other characters in their order.
pub open spec fn without_white_space(text: Seq<char>) -> Seq<char> {
    text.filter(|c: char| !is_white_space(c))
}

/// The bytes that a blob's content on the wire stands for: white space is
/// dropped wherever it stands, and what is left is read as base64.
pub open spec fn content_bytes(text: Seq<char>) -> Option<Seq<u8>> {
    base64_bytes(without_white_space(text))
}

/// Few enough bytes for their base64 to fit in one string.
pub open spec fn encodable(bytes: Seq<u8>) -> bool {
    bytes.len() / 3 * 4 + 4 <= isize::MAX
}

/// `Engine::encode` of `base64::engine::general_purpose::STANDARD`: the text
/// is the standard engine's, it is made of the 64 symbols and `=` alone, and
/// the same engine reads the bytes back from it.
#[verifier::external_body]
fn standard_encode(bytes: &[u8]) -> (text: String)
    requires
        encodable(bytes@),
    ensures
        text@ == base64_text(bytes@),
        base64_bytes(text@) == Some(bytes@),
        forall|i: int| 0 <= i < text@.len() ==> is_base64_symbol(#[trigger] text@[i]),
{
    base64::Engine::encode(&base64::engine::general_purpose::STANDARD, bytes)
}

/// `Engine::decode` of `base64::engine::general_purpose::STANDARD`: the bytes
/// that the standard engine reads from the text, or its error.
#[verifier::external_body]
fn standard_decode(text: &str) -> (bytes: Result<Vec<u8>, base64::DecodeError>)
    ensures
        match bytes {
            Ok(read) => base64_bytes(text@) == Some(read@),
            Err(_) => base64_bytes(text@) is None,
        },
{
    base64::Engine::decode(&base64::engine::general_purpose::STANDARD, text)
}

/// `ToString::to_string` of `base64::DecodeError`: the error in words.
#[verifier::external_body]
fn decode_error_text(error: &base64::DecodeError) -> (text: String) {
    error.to_string()
}

/// The symbols of standard base64: letters, digits, `+`, `/`, and `=` for padding.
pub open spec fn is_base64_symbol(c: char) -> bool {
    ||| 'A' <= c <= 'Z'
    ||| 'a' <= c <= 'z'
    ||| '0' <= c <= '9'
    ||| c == '+'
    ||| c == '/'
    ||| c == '='
}

/// Whether `c` has the Unicode property White_Space.
pub fn white_space(c: char) -> (white: bool)
    ensures
        white == is_white_space(c),
{
    let code: u32 = c as u32;
    (0x09 <= code && code <= 0x0d) || code == 0x20 || code == 0x85 || code == 0xa0 || code
        == 0x1680 || (0x2000 <= code && code <= 0x200a) || code == 0x2028 || code == 0x2029
        || code == 0x202f || code == 0x205f || code == 0x3000
}

/// Drops the white space of `text`.
pub fn strip_white_space(text: &str) -> (stripped: String)
    ensures
        stripped@ == without_white_space(text@),
{
    let all = chars_of(text);
    let mut kept: Vec<char> = Vec::new();
    let mut i: usize = 0;
    while i < all.len()
        invariant
            i <= all.len(),
            kept@ == without_white_space(all@.take(i as int)),
        decreases all.len() - i,
    {
        proof {
            let seen = all@.take(i as int);
            let next = all@.take(i + 1);
            assert(next == seen.push(all@[i as int]));
            assert(next.drop_last() == seen);
            reveal(Seq::filter);
        }
        if !white_space(all[i]) {
            kept.push(all[i]);
        }
        i = i + 1;
    }
    assert(all@.take(all.len() as int) == all@);
    string_of(&kept)
}

/// A text without white space loses nothing when its white space is dropped.
pub proof fn lemma_nothing_to_strip(text: Seq<char>)
    requires
        forall|i: int| 0 <= i < text.len() ==> !is_white_space(#[trigger] text[i]),
    ensures
        without_white_space(text) == text,
    decreases text.len(),
{
    reveal(Seq::filter);
    if text.len() > 0 {
        let shorter = text.drop_last();
        assert forall|i: int| 0 <= i < shorter.len() implies !is_white_space(
            #[trigger] shorter[i],
        ) by {
            assert(shorter[i] == text[i]);
        }
        lemma_nothing_to_strip(shorter);
        assert(!is_white_space(text[text.len() - 1]));
        assert(shorter.push(text.last()) == text);
    }
}

/// White space put anywhere into a blob's content changes nothing of the bytes it stands for.
pub proof fn lemma_white_space_is_ignored(text: Seq<char>, at: int, space: char)
    requires
        0 <= at <= text.len(),
        is_white_space(space),
    ensures
        content_bytes(text.insert(at, space)) == content_bytes(text),
{
    let keep = |c: char| !is_white_space(c);
    let head = text.take(at);
    let tail = text.skip(at);
    assert(text == head + tail);
    assert(text.insert(at, space) == head.push(space) + tail);
    Seq::filter_distributes_over_add(head, tail, keep);
    Seq::filter_distributes_over_add(head.push(space), tail, keep);
    assert(head.push(space).filter(keep) == head.filter(keep)) by {
        reveal(Seq::filter);
        assert(head.push(space).drop_last() == head);
    }
}

/// Writes bytes as a blob's content on the wire. Reading the content back gives the bytes.
pub fn serialize(value: &[u8]) -> (text: String)
    requires
        encodable(value@),
    ensures
        text@ == base64_text(value@),
        content_bytes(text@) == Some(value@),
{
    let text = standard_encode(value);
    proof {
        assert forall|i: int| 0 <= i < text@.len() implies !is_white_space(#[trigger] text@[i]) by {
            assert(is_base64_symbol(text@[i]));
        }
        lemma_nothing_to_strip(text@);
    }
    text
}

/// Reads a blob's content from the wire, white space dropped first. A text
/// that is no base64 once stripped is a malformed answer.
pub fn deserialize(text: &str) -> (bytes: Result<Vec<u8>, ClientResponseError>)
    ensures
        match content_bytes(text@) {
            Some(read) => bytes matches Ok(found) && found@ == read,
            None => bytes matches Err(ClientResponseError::Malformed { .. }),
        },
{
    let stripped = strip_white_space(text);
    match standard_decode(stripped.as_str()) {
        Ok(found) => Ok(found),
        Err(error) => Err(ClientResponseError::Malformed { reason: decode_error_text(&error) }),
    }
}

/// Why a blob could not be had.
#[derive(Debug, PartialEq, Eq)]
pub enum BlobError {
    Client(ClientError),
}

/// A blob as the server knows it: its content and the hash the server gave it.
#[derive(Debug, PartialEq, Eq)]
#[allow(inconsistent_fields)]
pub enum Blob {
    /// Content that travels as base64 and is held as raw bytes.
    Binary { content: Vec<u8>, sha: Sha },
    /// Content that travels and is held as text.
    Text { content: String, sha: Sha },
}

impl Blob {
    /// The hash of the blob.
    pub fn get_sha(&self) -> (sha: Sha)
        ensures
            sha == self.sha(),
    {
        match self {
            Blob::Binary { sha, .. } => sha.clone(),
            Blob::Text { sha, .. } => sha.clone(),
        }
    }

    /// The hash of the blob.
    pub open spec fn sha(&self) -> Sha {
        match *self {
            Blob::Binary { sha, .. } => sha,
            Blob::Text { sha, .. } => sha,
        }
    }
}

/// A blob as it travels from the service: how the content is written, the
/// content so written, and the hash.
#[derive(Debug, PartialEq, Eq)]
pub struct BlobContent {
    pub encoding: String,
    pub content: String,
    pub sha: Sha,
}

/// The encoding that an `encoding` on the wire names.
pub open spec fn encoding_of(text: Seq<char>) -> Option<Encoding> {
    if text == "base64"@ {
        Some(Encoding::Base64)
    } else if text == "utf-8"@ {
        Some(Encoding::Utf8)
    } else {
        None
    }
}

impl Blob {
    /// The path under which the blobs of `repository` are made.
    pub open spec fn blobs_endpoint(repository: HandleRepository) -> Seq<char> {
        repository.endpoint() + "/git/blobs"@
    }

    fn blobs_path(repository: &HandleRepository) -> (endpoint: String)
        ensures
            endpoint@ == Blob::blobs_endpoint(*repository),
    {
        let mut endpoint = repository.get_endpoint();
        endpoint.append("/git/blobs");
        endpoint
    }

    /// The request that asks for the blob with the given hash.
    pub fn fetch_request(repository: &HandleRepository, sha: &Sha) -> (request: Request)
        ensures
            request@ == RequestView::plain(
                Method::Get,
                Blob::blobs_endpoint(*repository) + "/"@ + sha@,
            ),
    {
        let mut endpoint = Blob::blobs_path(repository);
        endpoint.append("/");
        endpoint.append(sha.as_ref());
        Request::new(Method::Get, endpoint, Payload::Empty)
    }

    /// The blob that the service answered with. Content written as `base64`
    /// is read into bytes, white space dropped; content written as `utf-8`
    /// is kept as text. Content that is no base64 is a malformed answer, and
    /// so is any other encoding, which is then given as the reason.
    pub fn try_fetch(answer: Result<BlobContent, ClientError>) -> (fetched: Result<
        Blob,
        BlobError,
    >)
        ensures
            match answer {
                Err(error) => fetched == Err::<Blob, BlobError>(BlobError::Client(error)),
                Ok(found) => match encoding_of(found.encoding@) {
                    Some(Encoding::Base64) => match content_bytes(found.content@) {
                        Some(bytes) => fetched matches Ok(Blob::Binary { content, sha }) && content@
                            == bytes && sha == found.sha,
                        None => fetched matches Err(
                            BlobError::Client(
                                ClientError::Response(ClientResponseError::Malformed { .. }),
                            ),
                        ),
                    },
                    Some(Encoding::Utf8) => fetched == Ok::<Blob, BlobError>(
                        Blob::Text { content: found.content, sha: found.sha },
                    ),
                    None => fetched == Err::<Blob, BlobError>(
                        BlobError::Client(
                            ClientError::Response(
                                ClientResponseError::Malformed { reason: found.encoding },
                            ),
                        ),
                    ),
                },
            },
    {
        match answer {
            Err(error) => Err(BlobError::Client(error)),
            Ok(found) => if same_text(found.encoding.as_str(), "base64") {
                match deserialize(found.content.as_str()) {
                    Ok(content) => Ok(Blob::Binary { content, sha: found.sha }),
                    Err(error) => Err(BlobError::Client(ClientError::Response(error))),
                }
            } else if same_text(found.encoding.as_str(), "utf-8") {
                Ok(Blob::Text { content: found.content, sha: found.sha })
            } else {
                Err(
                    BlobError::Client(
                        ClientError::Response(
                            ClientResponseError::Malformed { reason: found.encoding },
                        ),
                    ),
                )
            },
        }
    }

    /// The request that makes a blob of the given text.
    pub fn create_text_request(repository: &HandleRepository, text: &str) -> (request: Request)
        ensures
            request@ == RequestView::with_payload(
                Method::Post,
                Blob::blobs_endpoint(*repository),
                PayloadView::Blob { encoding: Encoding::Utf8, content: text@ },
            ),
    {
        Request::new(
            Method::Post,
            Blob::blobs_path(repository),
            Payload::Blob { encoding: Encoding::Utf8, content: text.to_owned() },
        )
    }

    /// The blob of the given text, under the hash that the service gave it.
    pub fn try_create_text_blob(text: &str, answer: Result<Sha, ClientError>) -> (created: Result<
        Blob,
        BlobError,
    >)
        ensures
            match answer {
                Err(error) => created == Err::<Blob, BlobError>(BlobError::Client(error)),
                Ok(given) => created matches Ok(Blob::Text { content, sha }) && content@ == text@
                    && sha == given,
            },
    {
        match answer {
            Err(error) => Err(BlobError::Client(error)),
            Ok(sha) => Ok(Blob::Text { content: text.to_owned(), sha }),
        }
    }

    /// The request that makes a blob of the given bytes, written as base64.
    pub fn create_binary_request(repository: &HandleRepository, binary: &[u8]) -> (request:
        Request)
        requires
            encodable(binary@),
        ensures
            request@ == RequestView::with_payload(
                Method::Post,
                Blob::blobs_endpoint(*repository),
                PayloadView::Blob { encoding: Encoding::Base64, content: base64_text(binary@) },
            ),
            content_bytes(base64_text(binary@)) == Some(binary@),
    {
        Request::new(
            Method::Post,
            Blob::blobs_path(repository),
            Payload::Blob { encoding: Encoding::Base64, content: serialize(binary) },
        )
    }

    /// The blob of the given bytes, under the hash that the service gave it.
    pub fn try_create_binary_blob(binary: &[u8], answer: Result<Sha, ClientError>) -> (created:
        Result<Blob, BlobError>)
        ensures
            match answer {
                Err(error) => created == Err::<Blob, BlobError>(BlobError::Client(error)),
                Ok(given) => created matches Ok(Blob::Binary { content, sha }) && content@
                    == binary@ && sha == given,
            },
    {
        match answer {
            Err(error) => Err(BlobError::Client(error)),
            Ok(sha) => Ok(Blob::Binary { content: slice_to_vec(binary), sha }),
        }
    }
}

impl From<ClientError> for BlobError {
    fn from(error: ClientError) -> (wrapped: BlobError) {
        BlobError::Client(error)
    }
}

impl vstd::std_specs::convert::FromSpecImpl<ClientError> for BlobError {
    open spec fn obeys_from_spec() -> bool {
        true
    }

    open spec fn from_spec(error: ClientError) -> BlobError {
        BlobError::Client(error)
    }
}

} // verus!
