use vstd::prelude::*;
use crate::framing::{flush, frames_view, scan, LineFramer, OutputFrame};

verus! {

#[verifier::external_type_specification]
#[verifier::external_body]
pub struct ExEncodingDetector(chardetng::EncodingDetector);

#[verifier::external_type_specification]
#[verifier::external_body]
pub struct ExEncoding(encoding_rs::Encoding);

/// The bytes fed to a detector so far, in order. chardetng documents that
/// the detector sees the concatenation of its chunks, however it was chunked.
pub uninterp spec fn fed_bytes(d: chardetng::EncodingDetector) -> Seq<u8>;

/// The label of the encoding that chardetng guesses (no top-level domain,
/// UTF-8 allowed) once it has been fed `fed`.
pub uninterp spec fn guess_label(fed: Seq<u8>) -> Seq<char>;

/// The name of an encoding.
pub uninterp spec fn encoding_label(e: encoding_rs::Encoding) -> Seq<char>;

/// What encoding_rs's `Encoding::decode` makes of `bytes` with the encoding
/// named `label`: the text, and whether malformed sequences were met.
pub uninterp spec fn decoding(label: Seq<char>, bytes: Seq<u8>) -> (Seq<char>, bool);

/// Relies on chardetng's `EncodingDetector::new`: a detector that has seen no bytes.
pub assume_specification[ chardetng::EncodingDetector::new ]() -> (r: chardetng::EncodingDetector)
    ensures
        fed_bytes(r) == Seq::<u8>::empty(),
;

/// The text that `String::from_utf8_lossy` makes of `bytes`.
pub uninterp spec fn lossy_utf8(bytes: Seq<u8>) -> Seq<char>;

/// Whether every byte is ASCII.
pub open spec fn all_ascii(bytes: Seq<u8>) -> bool {
    forall|i: int| 0 <= i < bytes.len() ==> bytes[i] < 128
}

/// The characters that ASCII bytes stand for.
pub open spec fn ascii_chars(bytes: Seq<u8>) -> Seq<char> {
    bytes.map_values(|b: u8| b as char)
}

/// Relies on `EncodingDetector::feed` with `last == false`, which never
/// panics: the stream the detector has seen grows by `bytes`.
#[verifier::external_body]
fn feed_detector(detector: &mut chardetng::EncodingDetector, bytes: &[u8])
    ensures
        fed_bytes(*final(detector)) == fed_bytes(*old(detector)) + bytes@,
{
    detector.feed(bytes, false);
}

/// Relies on `EncodingDetector::guess` with no top-level domain (which never
/// panics) and UTF-8 allowed: the best guess for the bytes fed so far.
#[verifier::external_body]
fn guess_encoding(detector: &chardetng::EncodingDetector) -> (r: &'static encoding_rs::Encoding)
    ensures
        encoding_label(*r) == guess_label(fed_bytes(*detector)),
{
    detector.guess(None, true)
}

/// Relies on encoding_rs's `Encoding::decode`: the decoded text, and whether
/// malformed sequences were met.
#[verifier::external_body]
fn decode_with(encoding: &'static encoding_rs::Encoding, bytes: &[u8]) -> (r: (String, bool))
    ensures
        (r.0@, r.1) == decoding(encoding_label(*encoding), bytes@),
{
    let (text, _, had_errors) = encoding.decode(bytes);
    (text.into_owned(), had_errors)
}

/// Relies on `String::from_utf8_lossy`: a function of the bytes alone, and
/// valid UTF-8 (ASCII among it) comes back unchanged.
#[verifier::external_body]
fn utf8_lossy(bytes: &[u8]) -> (r: String)
    ensures
        r@ == lossy_utf8(bytes@),
        all_ascii(bytes@) ==> r@ == ascii_chars(bytes@),
{
    String::from_utf8_lossy(bytes).into_owned()
}

/// The text of one chunk: what the guessed encoding decoded, unless that
/// decoding met malformed input, in which case the raw bytes read as UTF-8
/// with replacement characters.
pub open spec fn chunk_text(decoded: Seq<char>, had_errors: bool, raw: Seq<u8>) -> Seq<char> {
    if had_errors {
        lossy_utf8(raw)
    } else {
        decoded
    }
}

/// Picks the text of a chunk from the result of decoding it.
pub fn select_text(decoded: String, had_errors: bool, raw: &[u8]) -> (r: String)
    ensures
        r@ == chunk_text(decoded@, had_errors, raw@),
{
    if had_errors {
        utf8_lossy(raw)
    } else {
        decoded
    }
}

/// Decoding state of one output stream: an encoding detector fed every chunk
/// seen so far, and the text accumulated since the last terminator.
pub struct StreamDecoder {
    detector: chardetng::EncodingDetector,
    framer: LineFramer,
}

impl View for StreamDecoder {
    type V = Seq<char>;

    closed spec fn view(&self) -> Seq<char> {
        self.framer@
    }
}

/// The text of a chunk once the detector has been fed `fed` (the chunk included).
pub open spec fn guessed_chunk_text(fed: Seq<u8>, bytes: Seq<u8>) -> Seq<char> {
    chunk_text(decoding(guess_label(fed), bytes).0, decoding(guess_label(fed), bytes).1, bytes)
}

impl StreamDecoder {
    /// The bytes of the stream seen so far.
    pub closed spec fn fed(&self) -> Seq<u8> {
        fed_bytes(self.detector)
    }

    pub fn new() -> (r: StreamDecoder)
        ensures
            r@ == Seq::<char>::empty(),
            r.fed() == Seq::<u8>::empty(),
    {
        StreamDecoder { detector: chardetng::EncodingDetector::new(), framer: LineFramer::new() }
    }

    /// Text accumulated since the last terminator.
    pub fn pending(&self) -> (r: String)
        ensures
            r@ == self@,
    {
        self.framer.pending()
    }

    /// Frames a chunk that has already been decoded; `raw` is the chunk's bytes.
    pub fn push_decoded(&mut self, decoded: String, had_errors: bool, raw: &[u8]) -> (r: Vec<OutputFrame>)
        ensures
            frames_view(r@) == scan(old(self)@, chunk_text(decoded@, had_errors, raw@)).0,
            final(self)@ == scan(old(self)@, chunk_text(decoded@, had_errors, raw@)).1,
            final(self).fed() == old(self).fed(),
    {
        let text = select_text(decoded, had_errors, raw);
        self.framer.push_text(text.as_str())
    }

    /// Feeds a chunk of raw bytes to the detector, decodes it with the
    /// encoding guessed from every byte seen so far, and frames the text;
    /// where that decoding meets malformed input, the chunk is read as
    /// UTF-8 with replacement characters instead.
    pub fn push_chunk(&mut self, bytes: &[u8]) -> (r: Vec<OutputFrame>)
        ensures
            final(self).fed() == old(self).fed() + bytes@,
            frames_view(r@) == scan(old(self)@, guessed_chunk_text(final(self).fed(), bytes@)).0,
            final(self)@ == scan(old(self)@, guessed_chunk_text(final(self).fed(), bytes@)).1,
    {
        feed_detector(&mut self.detector, bytes);
        let encoding = guess_encoding(&self.detector);
        let (decoded, had_errors) = decode_with(encoding, bytes);
        self.push_decoded(decoded, had_errors, bytes)
    }

    /// Ends the stream: the unterminated rest, if any, as a final append frame.
    pub fn finish(self) -> (r: Vec<OutputFrame>)
        ensures
            frames_view(r@) == flush(self@),
    {
        self.framer.finish()
    }
}

} // verus!
