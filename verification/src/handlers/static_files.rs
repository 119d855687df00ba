//! The static asset pipeline: cache and compression policy, validators for
//! conditional requests, and the response for a file found below the static
//! root.

use crate::config::server_config::{cache_duration, ServerConfig, ServerConfigView};
use crate::path::{extension, extension_of, normalize_path, normalized};
use crate::response::{
    header_value, header_views, optional_text, text_response, ResponseDescriptor, ResponseView,
};
use crate::text::{
    append_str, ascii_lower, concat_str, contains, contains_str, decimal, from_chars,
    push_decimal, starts_with_str, to_ascii_lower, to_chars,
};
use std::io::Read;
use vstd::prelude::*;

verus! {

// ----------------------------------------------------------------------
// Content type
// ----------------------------------------------------------------------

/// The media type that `mime_guess` gives for a file extension.
pub uninterp spec fn mime_type_for_extension(extension: Seq<char>) -> Seq<char>;

/// Calls `mime_guess::from_ext(..).first_or_octet_stream()` and writes the
/// media type out as text. The result is a function of the extension alone:
/// the first entry of a table built into `mime_guess`, looked up without
/// regard to case, or `application/octet-stream`.
#[verifier::external_body]
fn guess_mime_type(extension: &str) -> (media_type: String)
    ensures
        media_type@ == mime_type_for_extension(extension@),
{
    mime_guess::from_ext(extension).first_or_octet_stream().to_string()
}

/// The content type of the file that `path` names.
pub open spec fn content_type_of(path: Seq<char>) -> Seq<char> {
    mime_type_for_extension(extension(path))
}

/// The content type of the file that `path` names, chosen by its extension.
pub fn get_content_type(path: &str) -> (content_type: String)
    ensures
        content_type@ == content_type_of(path@),
{
    let ext = extension_of(path);
    guess_mime_type(ext.as_str())
}

// ----------------------------------------------------------------------
// Validators
// ----------------------------------------------------------------------

/// The largest number of bytes that `generate_etag` hashes.
pub const MAX_DIGEST_INPUT: u64 = 0x1FFF_FFFF_FFFF_FFFF;

/// The SHA-256 digest of `data`.
pub uninterp spec fn sha256_digest(data: Seq<u8>) -> Seq<u8>;

/// Calls `ring::digest::digest` with `ring::digest::SHA256`. The digest is a
/// function of the data alone. `ring` panics where the length of the data in
/// bits does not fit 64 bits; such data is left out.
#[verifier::external_body]
fn sha256(data: &[u8]) -> (digest: Vec<u8>)
    requires
        data@.len() <= MAX_DIGEST_INPUT,
    ensures
        digest@ == sha256_digest(data@),
{
    ring::digest::digest(&ring::digest::SHA256, data).as_ref().to_vec()
}

/// The character for the hexadecimal digit `n`, in lower case.
pub open spec fn hex_digit(n: int) -> char
    recommends
        0 <= n < 16,
{
    if n < 10 {
        ((48 + n) as u8) as char
    } else {
        ((87 + n) as u8) as char
    }
}

/// `bytes` in hexadecimal: two lower-case digits for each byte, the high
/// half first.
pub open spec fn hex_lower(bytes: Seq<u8>) -> Seq<char> {
    Seq::new(
        2 * bytes.len(),
        |i: int|
            hex_digit(
                if i % 2 == 0 {
                    bytes[i / 2] as int / 16
                } else {
                    bytes[i / 2] as int % 16
                },
            ),
    )
}

/// Calls `hex::encode`, which writes each byte as two lower-case hexadecimal
/// digits, the high half first.
#[verifier::external_body]
fn hex_encode(bytes: &[u8]) -> (text: String)
    ensures
        text@ == hex_lower(bytes@),
{
    hex::encode(bytes)
}

/// The entity tag for content with digest `digest`: the digest in
/// hexadecimal between double quotes.
pub open spec fn etag_text(digest: Seq<u8>) -> Seq<char> {
    seq!['"'] + hex_lower(digest) + seq!['"']
}

/// The entity tag of `content`, where the content is short enough to hash.
pub open spec fn etag_of(content: Seq<u8>) -> Option<Seq<char>> {
    if content.len() <= MAX_DIGEST_INPUT {
        Some(etag_text(sha256_digest(content)))
    } else {
        None
    }
}

/// The entity tag of `content`: a strong validator made of the content's
/// SHA-256 digest. There is none for content too long to hash.
pub fn generate_etag(content: &[u8]) -> (etag: Option<String>)
    ensures
        optional_text(etag) == etag_of(content@),
{
    if content.len() as u64 > MAX_DIGEST_INPUT {
        return None;
    }
    let digest = sha256(content);
    let hex = hex_encode(digest.as_slice());
    let mut text: Vec<char> = Vec::new();
    text.push('"');
    append_str(&mut text, hex.as_str());
    text.push('"');
    Some(from_chars(text.as_slice()))
}

/// Equal content has equal entity tags.
pub proof fn lemma_etag_stable(first: Seq<u8>, second: Seq<u8>)
    requires
        first == second,
    ensures
        etag_of(first) == etag_of(second),
{
}

/// Different hexadecimal digits are different characters.
proof fn lemma_hex_digit_injective(a: int, b: int)
    requires
        0 <= a < 16,
        0 <= b < 16,
        hex_digit(a) == hex_digit(b),
    ensures
        a == b,
{
    assert(((48 + a) as u8) as char as u8 == (48 + a) as u8);
    assert(((87 + a) as u8) as char as u8 == (87 + a) as u8);
    assert(((48 + b) as u8) as char as u8 == (48 + b) as u8);
    assert(((87 + b) as u8) as char as u8 == (87 + b) as u8);
}

/// Entity tags are equal only where the digests are.
pub proof fn lemma_etag_text_injective(first: Seq<u8>, second: Seq<u8>)
    requires
        etag_text(first) == etag_text(second),
    ensures
        first == second,
{
    let a = etag_text(first);
    let b = etag_text(second);
    assert(a.len() == 2 * first.len() + 2);
    assert(b.len() == 2 * second.len() + 2);
    assert(first.len() == second.len());
    assert forall|k: int| 0 <= k < first.len() implies first[k] == second[k] by {
        assert(a[2 * k + 1] == hex_lower(first)[2 * k]);
        assert(b[2 * k + 1] == hex_lower(second)[2 * k]);
        assert(a[2 * k + 2] == hex_lower(first)[2 * k + 1]);
        assert(b[2 * k + 2] == hex_lower(second)[2 * k + 1]);
        assert((2 * k) / 2 == k && (2 * k) % 2 == 0);
        assert((2 * k + 1) / 2 == k && (2 * k + 1) % 2 == 1);
        lemma_hex_digit_injective(first[k] as int / 16, second[k] as int / 16);
        lemma_hex_digit_injective(first[k] as int % 16, second[k] as int % 16);
    }
    assert(first =~= second);
}

/// The entity tags of two contents differ exactly where their digests do.
pub proof fn lemma_etag_follows_digest(first: Seq<u8>, second: Seq<u8>)
    requires
        first.len() <= MAX_DIGEST_INPUT,
        second.len() <= MAX_DIGEST_INPUT,
    ensures
        etag_of(first) == etag_of(second) <==> sha256_digest(first) == sha256_digest(second),
{
    if etag_of(first) == etag_of(second) {
        lemma_etag_text_injective(sha256_digest(first), sha256_digest(second));
    }
}

/// The HTTP date, such as `Thu, 01 Jan 1970 00:00:00 GMT`, of the instant
/// `seconds` seconds after the start of 1970 in UTC, where the calendar of
/// `chrono` reaches that instant.
pub uninterp spec fn http_date_text(seconds: i64) -> Option<Seq<char>>;

/// Calls `chrono::DateTime::from_timestamp` and formats the date with
/// `%a, %d %b %Y %H:%M:%S GMT`. The text is a function of the seconds alone;
/// there is none where `from_timestamp` gives no date.
#[verifier::external_body]
fn format_http_date(seconds: i64) -> (text: Option<String>)
    ensures
        optional_text(text) == http_date_text(seconds),
{
    match chrono::DateTime::from_timestamp(seconds, 0) {
        Some(date) => Some(date.format("%a, %d %b %Y %H:%M:%S GMT").to_string()),
        None => None,
    }
}

/// The `Last-Modified` value of a file modified `seconds` seconds after the
/// start of 1970.
pub open spec fn last_modified_text(seconds: u64) -> Option<Seq<char>> {
    if seconds <= i64::MAX as u64 {
        http_date_text(seconds as i64)
    } else {
        None
    }
}

/// The `Last-Modified` value of a file modified `seconds` seconds after the
/// start of 1970, as an HTTP date.
pub fn get_last_modified(seconds: u64) -> (text: Option<String>)
    ensures
        optional_text(text) == last_modified_text(seconds),
{
    if seconds > i64::MAX as u64 {
        return None;
    }
    format_http_date(seconds as i64)
}

/// The validators of a file: its entity tag and the date of its last
/// modification, each where it could be had.
#[derive(Debug, Clone, PartialEq, Eq)]
pub struct Validators {
    pub etag: Option<String>,
    pub last_modified: Option<String>,
}

/// What `Validators` hold, as mathematical values.
#[verifier::ext_equal]
pub struct ValidatorsView {
    pub etag: Option<Seq<char>>,
    pub last_modified: Option<Seq<char>>,
}

impl View for Validators {
    type V = ValidatorsView;

    open spec fn view(&self) -> ValidatorsView {
        ValidatorsView {
            etag: optional_text(self.etag),
            last_modified: optional_text(self.last_modified),
        }
    }
}

/// The headers of a request that the static pipeline reads.
#[derive(Debug, Clone, PartialEq, Eq)]
pub struct StaticRequest {
    pub if_none_match: Option<String>,
    pub if_modified_since: Option<String>,
    pub accept_encoding: Option<String>,
}

/// What a `StaticRequest` holds, as mathematical values.
#[verifier::ext_equal]
pub struct StaticRequestView {
    pub if_none_match: Option<Seq<char>>,
    pub if_modified_since: Option<Seq<char>>,
    pub accept_encoding: Option<Seq<char>>,
}

impl View for StaticRequest {
    type V = StaticRequestView;

    open spec fn view(&self) -> StaticRequestView {
        StaticRequestView {
            if_none_match: optional_text(self.if_none_match),
            if_modified_since: optional_text(self.if_modified_since),
            accept_encoding: optional_text(self.accept_encoding),
        }
    }
}

/// A file as the pipeline sees it: the time of its last modification in
/// seconds after the start of 1970, where known, and its bytes.
#[derive(Debug, Clone, PartialEq, Eq)]
pub struct StaticFile {
    pub modified: Option<u64>,
    pub content: Vec<u8>,
}

/// What a `StaticFile` holds, as mathematical values.
#[verifier::ext_equal]
pub struct StaticFileView {
    pub modified: Option<u64>,
    pub content: Seq<u8>,
}

impl View for StaticFile {
    type V = StaticFileView;

    open spec fn view(&self) -> StaticFileView {
        StaticFileView { modified: self.modified, content: self.content@ }
    }
}

/// The validators of a file.
pub open spec fn validators_of(file: StaticFileView) -> ValidatorsView {
    ValidatorsView {
        etag: etag_of(file.content),
        last_modified: match file.modified {
            Some(seconds) => last_modified_text(seconds),
            None => None,
        },
    }
}

/// The validators of a file with bytes `content`, last modified at
/// `modified`.
pub fn compute_validators(content: &[u8], modified: Option<u64>) -> (validators: Validators)
    ensures
        validators@ == validators_of(StaticFileView { modified: modified, content: content@ }),
{
    let last_modified = match modified {
        Some(seconds) => get_last_modified(seconds),
        None => None,
    };
    Validators { etag: generate_etag(content), last_modified: last_modified }
}

// ----------------------------------------------------------------------
// Conditional requests
// ----------------------------------------------------------------------

/// A response without body that carries one validator.
pub open spec fn not_modified(name: Seq<char>, value: Seq<char>) -> ResponseView {
    ResponseView {
        status: 304,
        content_type: None,
        headers: seq![(name, value)],
        body: Seq::<u8>::empty(),
    }
}

/// The answer to a conditional request whose validator matches, if one
/// does: `If-None-Match` is compared with the entity tag first, then
/// `If-Modified-Since` with the date of the last modification. Both
/// comparisons are exact.
pub open spec fn not_modified_response(
    validators: ValidatorsView,
    request: StaticRequestView,
) -> Option<ResponseView> {
    if validators.etag is Some && request.if_none_match == validators.etag {
        Some(not_modified("ETag"@, validators.etag->0))
    } else if validators.last_modified is Some && request.if_modified_since
        == validators.last_modified {
        Some(not_modified("Last-Modified"@, validators.last_modified->0))
    } else {
        None
    }
}

fn same_text(value: &Option<String>, validator: &String) -> (same: bool)
    ensures
        same == (optional_text(*value) == Some(validator@)),
{
    match value {
        Some(v) => *v == *validator,
        None => false,
    }
}

fn not_modified_with(name: &str, value: &String) -> (response: ResponseDescriptor)
    ensures
        response@ == not_modified(name@, value@),
{
    let mut headers: Vec<(String, String)> = Vec::new();
    headers.push((name.to_owned(), value.clone()));
    ResponseDescriptor { status: 304, content_type: None, headers: headers, body: Vec::new() }
}

/// Answers a conditional request whose validator matches with `304` and no
/// body; gives `None` where the file has to be sent.
pub fn check_not_modified(validators: &Validators, request: &StaticRequest) -> (response: Option<
    ResponseDescriptor,
>)
    ensures
        match response {
            Some(r) => not_modified_response(validators@, request@) == Some(r@),
            None => not_modified_response(validators@, request@) is None,
        },
{
    if let Some(etag) = &validators.etag {
        if same_text(&request.if_none_match, etag) {
            return Some(not_modified_with("ETag", etag));
        }
    }
    if let Some(last_modified) = &validators.last_modified {
        if same_text(&request.if_modified_since, last_modified) {
            return Some(not_modified_with("Last-Modified", last_modified));
        }
    }
    None
}

// ----------------------------------------------------------------------
// Compression
// ----------------------------------------------------------------------

/// A content encoding that the pipeline can apply.
#[derive(Debug, Clone, Copy, PartialEq, Eq)]
pub enum Encoding {
    Brotli,
    Gzip,
    Deflate,
}

impl Encoding {
    /// The token that names the encoding in `Accept-Encoding` and
    /// `Content-Encoding`.
    pub open spec fn token(self) -> Seq<char> {
        match self {
            Encoding::Brotli => "br"@,
            Encoding::Gzip => "gzip"@,
            Encoding::Deflate => "deflate"@,
        }
    }

    /// The token that names the encoding.
    pub fn name(self) -> (token: &'static str)
        ensures
            token@ == self.token(),
    {
        match self {
            Encoding::Brotli => "br",
            Encoding::Gzip => "gzip",
            Encoding::Deflate => "deflate",
        }
    }
}

/// Whether content of type `content_type` is worth compressing: text of any
/// kind, and the textual application and image types.
pub open spec fn is_compressible_type(content_type: Seq<char>) -> bool {
    ||| "text/"@.is_prefix_of(content_type)
    ||| "application/javascript"@.is_prefix_of(content_type)
    ||| "application/json"@.is_prefix_of(content_type)
    ||| "application/xml"@.is_prefix_of(content_type)
    ||| "application/xhtml+xml"@.is_prefix_of(content_type)
    ||| "image/svg+xml"@.is_prefix_of(content_type)
    ||| "application/wasm"@.is_prefix_of(content_type)
}

/// Whether content of type `content_type` is worth compressing.
pub fn is_compressible(content_type: &str) -> (compressible: bool)
    ensures
        compressible == is_compressible_type(content_type@),
{
    let t = to_chars(content_type);
    starts_with_str(t.as_slice(), "text/") || starts_with_str(
        t.as_slice(),
        "application/javascript",
    ) || starts_with_str(t.as_slice(), "application/json") || starts_with_str(
        t.as_slice(),
        "application/xml",
    ) || starts_with_str(t.as_slice(), "application/xhtml+xml") || starts_with_str(
        t.as_slice(),
        "image/svg+xml",
    ) || starts_with_str(t.as_slice(), "application/wasm")
}

/// The encoding that a client offering `accept_encoding` gets: brotli before
/// gzip before deflate, each where its token occurs in the offer, compared
/// without regard to case.
pub open spec fn preferred_encoding(accept_encoding: Seq<char>) -> Option<Encoding> {
    let offer = ascii_lower(accept_encoding);
    if contains(offer, "br"@) {
        Some(Encoding::Brotli)
    } else if contains(offer, "gzip"@) {
        Some(Encoding::Gzip)
    } else if contains(offer, "deflate"@) {
        Some(Encoding::Deflate)
    } else {
        None
    }
}

/// The encoding that a client offering `accept_encoding` gets.
pub fn select_encoding(accept_encoding: &str) -> (encoding: Option<Encoding>)
    ensures
        encoding == preferred_encoding(accept_encoding@),
{
    let chars = to_chars(accept_encoding);
    let offer = to_ascii_lower(chars.as_slice());
    if contains_str(offer.as_slice(), "br") {
        Some(Encoding::Brotli)
    } else if contains_str(offer.as_slice(), "gzip") {
        Some(Encoding::Gzip)
    } else if contains_str(offer.as_slice(), "deflate") {
        Some(Encoding::Deflate)
    } else {
        None
    }
}

/// The encoding to apply to `length` bytes of type `content_type` for a
/// client whose offer is `accept_encoding`: none unless compression is
/// enabled, the type is compressible and the content is longer than the
/// configured minimum.
pub open spec fn chosen_encoding(
    config: ServerConfigView,
    content_type: Seq<char>,
    length: nat,
    accept_encoding: Option<Seq<char>>,
) -> Option<Encoding> {
    if config.enable_compression && is_compressible_type(content_type) && length
        > config.min_size_to_compress {
        match accept_encoding {
            Some(offer) => preferred_encoding(offer),
            None => None,
        }
    } else {
        None
    }
}

/// The encoding to apply to content for a client, if any.
pub fn choose_encoding(
    config: &ServerConfig,
    content_type: &str,
    length: usize,
    accept_encoding: &Option<String>,
) -> (encoding: Option<Encoding>)
    ensures
        encoding == chosen_encoding(
            config@,
            content_type@,
            length as nat,
            optional_text(*accept_encoding),
        ),
{
    if config.enable_compression && is_compressible(content_type) && length
        > config.min_size_to_compress {
        match accept_encoding {
            Some(offer) => select_encoding(offer.as_str()),
            None => None,
        }
    } else {
        None
    }
}

/// The bytes of an optional buffer.
pub open spec fn optional_bytes(bytes: Option<Vec<u8>>) -> Option<Seq<u8>> {
    match bytes {
        Some(b) => Some(b@),
        None => None,
    }
}

/// Compresses `content` with `brotli::CompressorReader`, quality 4 and a
/// window of 22 bits. Nothing is claimed of the bytes that come back: the
/// encoder weighs its choices with `f32::log2`, whose precision the standard
/// library leaves to the platform, so the bytes need not be the same on
/// every machine.
#[verifier::external_body]
fn compress_brotli(content: &[u8]) -> (compressed: Option<Vec<u8>>)
{
    let mut reader = brotli::CompressorReader::new(content, 4096, 4, 22);
    let mut compressed = Vec::new();
    match reader.read_to_end(&mut compressed) {
        Ok(_) => Some(compressed),
        Err(_) => None,
    }
}

/// The gzip stream that `flate2` makes of `content` at its default level,
/// and nothing where its encoder fails.
pub uninterp spec fn gzip_stream(content: Seq<u8>) -> Option<Seq<u8>>;

/// Compresses `content` with `flate2::read::GzEncoder` at the default level.
/// The outcome is a function of the content alone: the header that `flate2`
/// writes holds no time stamp, no name and a fixed operating system byte,
/// and the stream behind it comes from `miniz_oxide`, which computes on
/// integers and reads neither clock nor environment.
#[verifier::external_body]
fn compress_gzip(content: &[u8]) -> (compressed: Option<Vec<u8>>)
    ensures
        optional_bytes(compressed) == gzip_stream(content@),
{
    let mut encoder = flate2::read::GzEncoder::new(content, flate2::Compression::default());
    let mut compressed = Vec::new();
    match encoder.read_to_end(&mut compressed) {
        Ok(_) => Some(compressed),
        Err(_) => None,
    }
}

/// The deflate stream that `flate2` makes of `content` at its default
/// level, and nothing where its encoder fails.
pub uninterp spec fn deflate_stream(content: Seq<u8>) -> Option<Seq<u8>>;

/// Compresses `content` with `flate2::read::DeflateEncoder` at the default
/// level. The outcome is a function of the content alone: the stream comes
/// from `miniz_oxide`, which computes on integers and reads neither clock
/// nor environment.
#[verifier::external_body]
fn compress_deflate(content: &[u8]) -> (compressed: Option<Vec<u8>>)
    ensures
        optional_bytes(compressed) == deflate_stream(content@),
{
    let mut encoder = flate2::read::DeflateEncoder::new(content, flate2::Compression::default());
    let mut compressed = Vec::new();
    match encoder.read_to_end(&mut compressed) {
        Ok(_) => Some(compressed),
        Err(_) => None,
    }
}

/// What is known beforehand of the outcome of encoding `content`: for gzip
/// and deflate it is the stream of that encoder, with no encoding there is
/// no outcome, and of brotli nothing is known.
pub open spec fn known_outcome(encoding: Option<Encoding>, content: Seq<u8>) -> Option<
    Option<Seq<u8>>,
> {
    match encoding {
        Some(Encoding::Gzip) => Some(gzip_stream(content)),
        Some(Encoding::Deflate) => Some(deflate_stream(content)),
        Some(Encoding::Brotli) => None,
        None => Some(None),
    }
}

/// `content` in the encoding `encoding`, or `None` where the encoder failed:
/// the content is handed to the encoder that `encoding` names, and what
/// that encoder gives is handed back.
fn compress(encoding: Encoding, content: &[u8]) -> (compressed: Option<Vec<u8>>)
    ensures
        known_outcome(Some(encoding), content@) matches Some(outcome) ==> optional_bytes(
            compressed,
        ) == outcome,
{
    match encoding {
        Encoding::Brotli => compress_brotli(content),
        Encoding::Gzip => compress_gzip(content),
        Encoding::Deflate => compress_deflate(content),
    }
}

// ----------------------------------------------------------------------
// Responses
// ----------------------------------------------------------------------

/// The value of `Cache-Control` for a lifetime of `seconds` seconds.
pub open spec fn cache_control_value(seconds: u32) -> Seq<char> {
    if seconds > 0 {
        "public, max-age="@ + decimal(seconds as nat)
    } else {
        "no-store, max-age=0"@
    }
}

/// The value of `Cache-Control` for a lifetime of `seconds` seconds.
pub fn cache_control(seconds: u32) -> (value: String)
    ensures
        value@ == cache_control_value(seconds),
{
    if seconds > 0 {
        let mut text: Vec<char> = Vec::new();
        append_str(&mut text, "public, max-age=");
        push_decimal(&mut text, seconds as u64);
        from_chars(text.as_slice())
    } else {
        "no-store, max-age=0".to_owned()
    }
}

/// A header added at the end is found only where none before it has the
/// name.
pub proof fn lemma_header_value_push(
    headers: Seq<(Seq<char>, Seq<char>)>,
    header: (Seq<char>, Seq<char>),
    name: Seq<char>,
)
    ensures
        header_value(headers.push(header), name) == match header_value(headers, name) {
            Some(value) => Some(value),
            None => if ascii_lower(header.0) == ascii_lower(name) {
                Some(header.1)
            } else {
                None
            },
        },
    decreases headers.len(),
{
    if headers.len() == 0 {
        assert(headers.push(header).drop_first().len() == 0);
        reveal_with_fuel(header_value, 2);
    } else {
        assert(headers.push(header).drop_first() == headers.drop_first().push(header));
        lemma_header_value_push(headers.drop_first(), header, name);
    }
}

/// `headers` followed by the header `name` where it has a value.
pub open spec fn with_optional_header(
    headers: Seq<(Seq<char>, Seq<char>)>,
    name: Seq<char>,
    value: Option<Seq<char>>,
) -> Seq<(Seq<char>, Seq<char>)> {
    match value {
        Some(v) => headers.push((name, v)),
        None => headers,
    }
}

/// Adds the header `name` to `headers` where it has a value.
pub fn push_optional_header(
    headers: &mut Vec<(String, String)>,
    name: &str,
    value: Option<String>,
)
    ensures
        header_views(final(headers)@) == with_optional_header(
            header_views(old(headers)@),
            name@,
            optional_text(value),
        ),
{
    match value {
        Some(v) => {
            headers.push((name.to_owned(), v));
            assert(header_views(headers@) == header_views(old(headers)@).push((name@, v@)));
        },
        None => {},
    }
}

/// The answer for a file that does not exist below the static root.
pub open spec fn not_found_response(path: Seq<char>) -> ResponseView {
    text_response(404, "soubor nenalezen: "@ + path)
}

/// The answer for a file that does not exist below the static root.
pub fn not_found(path: &str) -> (response: ResponseDescriptor)
    ensures
        response@ == not_found_response(path@),
{
    let message = concat_str("soubor nenalezen: ", path);
    ResponseDescriptor::text(404, message.as_str())
}

/// The answer for a file that is larger than the configured maximum.
pub open spec fn too_large_response() -> ResponseView {
    text_response(413, "soubor je prilis velky"@)
}

/// Refuses a file of `size` bytes with `413` where it is larger than the
/// configured maximum, before any of it is read.
pub fn check_file_size(config: &ServerConfig, size: u64) -> (response: Option<ResponseDescriptor>)
    ensures
        match response {
            Some(r) => size > config.max_file_size && r@ == too_large_response(),
            None => size <= config.max_file_size,
        },
{
    if size > config.max_file_size as u64 {
        Some(ResponseDescriptor::text(413, "soubor je prilis velky"))
    } else {
        None
    }
}

/// The answer for a path that cannot be resolved.
pub fn invalid_path() -> (response: ResponseDescriptor)
    ensures
        response@ == text_response(400, "neplatna cesta"@),
{
    ResponseDescriptor::text(400, "neplatna cesta")
}

/// The answer for a file whose metadata could not be read.
pub fn metadata_failed() -> (response: ResponseDescriptor)
    ensures
        response@ == text_response(500, "chyba pri ziskavani metadat souboru"@),
{
    ResponseDescriptor::text(500, "chyba pri ziskavani metadat souboru")
}

/// The answer for a file that could not be read.
pub fn read_failed() -> (response: ResponseDescriptor)
    ensures
        response@ == text_response(500, "chyba pri cteni souboru"@),
{
    ResponseDescriptor::text(500, "chyba pri cteni souboru")
}

/// The response in development mode: the file as it is, never cached.
pub open spec fn development_response_spec(path: Seq<char>, content: Seq<u8>) -> ResponseView {
    ResponseView {
        status: 200,
        content_type: Some(content_type_of(path)),
        headers: seq![("Cache-Control"@, "no-store, max-age=0"@)],
        body: content,
    }
}

/// The response in development mode: the file as it is, never cached, with
/// no validators and no compression.
pub fn development_response(path: &str, content: Vec<u8>) -> (response: ResponseDescriptor)
    ensures
        response@ == development_response_spec(path@, content@),
{
    let mut headers: Vec<(String, String)> = Vec::new();
    headers.push(("Cache-Control".to_owned(), "no-store, max-age=0".to_owned()));
    ResponseDescriptor {
        status: 200,
        content_type: Some(get_content_type(path)),
        headers: headers,
        body: content,
    }
}

/// The full response for the file at `path` with bytes `content`.
/// `compressed` is what the encoder made of the content, or `None` where it
/// failed or was not asked: the body is compressed, and says so, only where
/// an encoding was chosen and the encoder succeeded.
pub open spec fn full_response_spec(
    config: ServerConfigView,
    path: Seq<char>,
    content: Seq<u8>,
    validators: ValidatorsView,
    request: StaticRequestView,
    compressed: Option<Seq<u8>>,
) -> ResponseView {
    let content_type = content_type_of(path);
    let encoding = chosen_encoding(config, content_type, content.len(), request.accept_encoding);
    let applied = encoding is Some && compressed is Some;
    let cache = cache_control_value(cache_duration(config, extension(path)));
    ResponseView {
        status: 200,
        content_type: Some(content_type),
        headers: with_optional_header(
            with_optional_header(
                with_optional_header(seq![("Cache-Control"@, cache)], "ETag"@, validators.etag),
                "Last-Modified"@,
                validators.last_modified,
            ),
            "Content-Encoding"@,
            if applied {
                Some(encoding->0.token())
            } else {
                None
            },
        ),
        body: if applied {
            compressed->0
        } else {
            content
        },
    }
}

/// Builds the full response from the outcome of the encoder.
pub fn assemble_response(
    config: &ServerConfig,
    path: &str,
    content: Vec<u8>,
    validators: Validators,
    request: &StaticRequest,
    compressed: Option<Vec<u8>>,
) -> (response: ResponseDescriptor)
    ensures
        response@ == full_response_spec(
            config@,
            path@,
            content@,
            validators@,
            request@,
            match compressed {
                Some(bytes) => Some(bytes@),
                None => None,
            },
        ),
{
    let content_type = get_content_type(path);
    let encoding = choose_encoding(
        config,
        content_type.as_str(),
        content.len(),
        &request.accept_encoding,
    );
    let ext = extension_of(path);
    let seconds = config.get_cache_duration(ext.as_str());
    let mut headers: Vec<(String, String)> = Vec::new();
    headers.push(("Cache-Control".to_owned(), cache_control(seconds)));
    assert(header_views(headers@) == seq![
        ("Cache-Control"@, cache_control_value(cache_duration(config@, extension(path@)))),
    ]);
    push_optional_header(&mut headers, "ETag", validators.etag);
    push_optional_header(&mut headers, "Last-Modified", validators.last_modified);
    let (body, applied): (Vec<u8>, Option<String>) = match (encoding, compressed) {
        (Some(e), Some(bytes)) => (bytes, Some(e.name().to_owned())),
        _ => (content, None),
    };
    push_optional_header(&mut headers, "Content-Encoding", applied);
    ResponseDescriptor {
        status: 200,
        content_type: Some(content_type),
        headers: headers,
        body: body,
    }
}

/// The full response for the file at `path` with bytes `content`: content
/// type by extension, `Cache-Control` by the cache policy, the validators,
/// and the body compressed for the client where that is called for and the
/// encoder succeeds. A failing encoder is no failure of the request: the
/// body is then sent as it is. Where gzip or deflate is chosen, the body is
/// the stream of that encoder; where brotli is chosen, the bytes of an
/// encoded body are left open.
pub fn full_response(
    config: &ServerConfig,
    path: &str,
    content: Vec<u8>,
    validators: Validators,
    request: &StaticRequest,
) -> (response: ResponseDescriptor)
    ensures
        response@ == full_response_spec(config@, path@, content@, validators@, request@, None)
            || response@ == full_response_spec(
            config@,
            path@,
            content@,
            validators@,
            request@,
            Some(response@.body),
        ),
        known_outcome(
            chosen_encoding(
                config@,
                content_type_of(path@),
                content@.len(),
                request@.accept_encoding,
            ),
            content@,
        ) matches Some(outcome) ==> response@ == full_response_spec(
            config@,
            path@,
            content@,
            validators@,
            request@,
            outcome,
        ),
{
    let content_type = get_content_type(path);
    let encoding = choose_encoding(
        config,
        content_type.as_str(),
        content.len(),
        &request.accept_encoding,
    );
    let compressed = match encoding {
        Some(e) => compress(e, content.as_slice()),
        None => None,
    };
    assemble_response(config, path, content, validators, request, compressed)
}

/// The response of the whole pipeline to a request for `filename`, where
/// `file` is the file found at the resolved path, if there is one, and
/// `compressed` the outcome of the encoder.
pub open spec fn static_response(
    config: ServerConfigView,
    filename: Seq<char>,
    file: Option<StaticFileView>,
    request: StaticRequestView,
    compressed: Option<Seq<u8>>,
) -> ResponseView {
    let path = normalized(filename);
    match file {
        None => not_found_response(path),
        Some(found) => {
            if found.content.len() > config.max_file_size {
                too_large_response()
            } else if config.development_mode {
                development_response_spec(path, found.content)
            } else {
                let validators = validators_of(found);
                match not_modified_response(validators, request) {
                    Some(response) => response,
                    None => full_response_spec(
                        config,
                        path,
                        found.content,
                        validators,
                        request,
                        compressed,
                    ),
                }
            }
        },
    }
}

/// What an optional file holds, as mathematical values.
pub open spec fn optional_file(file: Option<StaticFile>) -> Option<StaticFileView> {
    match file {
        Some(found) => Some(found@),
        None => None,
    }
}

/// What is known beforehand of the outcome of the encoder in the pipeline:
/// the known outcome of the encoding chosen for the file that was found.
pub open spec fn static_known_outcome(
    config: ServerConfigView,
    filename: Seq<char>,
    file: Option<StaticFileView>,
    request: StaticRequestView,
) -> Option<Option<Seq<u8>>> {
    match file {
        Some(found) => known_outcome(
            chosen_encoding(
                config,
                content_type_of(normalized(filename)),
                found.content.len(),
                request.accept_encoding,
            ),
            found.content,
        ),
        None => Some(None),
    }
}

/// Serves the file requested as `filename`. `file` is what was found at the
/// resolved path: `None` where there is no regular file. The response is
/// that of `static_response` for the outcome of the encoder: the known one
/// where gzip, deflate or no encoding is chosen, and else either a failure
/// or the bytes of the body.
pub fn serve_static_file(
    config: &ServerConfig,
    filename: &str,
    file: Option<StaticFile>,
    request: &StaticRequest,
) -> (response: ResponseDescriptor)
    ensures
        response@ == static_response(config@, filename@, optional_file(file), request@, None)
            || response@ == static_response(
            config@,
            filename@,
            optional_file(file),
            request@,
            Some(response@.body),
        ),
        static_known_outcome(config@, filename@, optional_file(file), request@) matches Some(
            outcome,
        ) ==> response@ == static_response(
            config@,
            filename@,
            optional_file(file),
            request@,
            outcome,
        ),
{
    let path = match normalize_path(filename) {
        Ok(p) => p,
        Err(_) => {
            return invalid_path();
        },
    };
    let found = match file {
        Some(found) => found,
        None => {
            return not_found(path.as_str());
        },
    };
    if let Some(response) = check_file_size(config, found.content.len() as u64) {
        return response;
    }
    if config.development_mode {
        return development_response(path.as_str(), found.content);
    }
    let validators = compute_validators(found.content.as_slice(), found.modified);
    if let Some(response) = check_not_modified(&validators, request) {
        return response;
    }
    full_response(config, path.as_str(), found.content, validators, request)
}

/// The headers of a full response carry the entity tag under `ETag`, and
/// under no other name.
proof fn lemma_full_response_etag(
    config: ServerConfigView,
    path: Seq<char>,
    content: Seq<u8>,
    validators: ValidatorsView,
    request: StaticRequestView,
    compressed: Option<Seq<u8>>,
)
    ensures
        header_value(
            full_response_spec(config, path, content, validators, request, compressed).headers,
            "ETag"@,
        ) == validators.etag,
{
    reveal_strlit("ETag");
    reveal_strlit("Cache-Control");
    reveal_strlit("Last-Modified");
    reveal_strlit("Content-Encoding");
    let name = "ETag"@;
    let response = full_response_spec(config, path, content, validators, request, compressed);
    let cache = cache_control_value(cache_duration(config, extension(path)));
    let h0 = seq![("Cache-Control"@, cache)];
    let h1 = with_optional_header(h0, "ETag"@, validators.etag);
    let h2 = with_optional_header(h1, "Last-Modified"@, validators.last_modified);
    assert(ascii_lower("Cache-Control"@).len() != ascii_lower(name).len());
    assert(ascii_lower("Last-Modified"@).len() != ascii_lower(name).len());
    assert(ascii_lower("Content-Encoding"@).len() != ascii_lower(name).len());
    assert(header_value(h0, name) is None) by {
        assert(h0.drop_first().len() == 0);
        reveal_with_fuel(header_value, 2);
    }
    if validators.etag is Some {
        lemma_header_value_push(h0, ("ETag"@, validators.etag->0), name);
    }
    if validators.last_modified is Some {
        lemma_header_value_push(h1, ("Last-Modified"@, validators.last_modified->0), name);
    }
    let encoding = chosen_encoding(
        config,
        content_type_of(path),
        content.len(),
        request.accept_encoding,
    );
    if encoding is Some && compressed is Some {
        lemma_header_value_push(h2, ("Content-Encoding"@, encoding->0.token()), name);
    }
}

/// A client that sends back the entity tag it was given is told that
/// nothing has changed: where the response to a request carries an `ETag`,
/// the same request with that tag as `If-None-Match` is answered with `304`,
/// the same tag and no body, whatever the encoder does.
pub proof fn lemma_conditional_round_trip(
    config: ServerConfigView,
    filename: Seq<char>,
    file: Option<StaticFileView>,
    request: StaticRequestView,
    first_outcome: Option<Seq<u8>>,
    second_outcome: Option<Seq<u8>>,
)
    ensures
        header_value(
            static_response(config, filename, file, request, first_outcome).headers,
            "ETag"@,
        ) matches Some(tag) ==> {
            let again = StaticRequestView { if_none_match: Some(tag), ..request };
            let second = static_response(config, filename, file, again, second_outcome);
            &&& second.status == 304
            &&& second.body.len() == 0
            &&& header_value(second.headers, "ETag"@) == Some(tag)
        },
{
    reveal_strlit("ETag");
    reveal_strlit("Cache-Control");
    reveal_strlit("Last-Modified");
    let name = "ETag"@;
    let path = normalized(filename);
    let first = static_response(config, filename, file, request, first_outcome);
    assert(ascii_lower("Cache-Control"@).len() != ascii_lower(name).len());
    assert(ascii_lower("Last-Modified"@).len() != ascii_lower(name).len());
    assert forall|h: (Seq<char>, Seq<char>)|
        header_value(seq![h], name) == if ascii_lower(h.0) == ascii_lower(name) {
            Some(h.1)
        } else {
            None
        } by {
        assert(seq![h].drop_first().len() == 0);
        reveal_with_fuel(header_value, 2);
    }
    assert(header_value(Seq::empty(), name) is None);
    match file {
        None => {},
        Some(found) => {
            if found.content.len() > config.max_file_size {
            } else if config.development_mode {
            } else {
                let validators = validators_of(found);
                match not_modified_response(validators, request) {
                    Some(response) => {},
                    None => {
                        lemma_full_response_etag(
                            config,
                            path,
                            found.content,
                            validators,
                            request,
                            first_outcome,
                        );
                    },
                }
            }
        },
    }
}

} // verus!
