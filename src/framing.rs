use vstd::prelude::*;
use crate::text::string_from_chars;

verus! {

/// One unit of emitted console text. `overwrite == false` appends a new line;
/// `overwrite == true` replaces the line currently being drawn.
pub struct OutputFrame {
    pub content: String,
    pub overwrite: bool,
}

impl View for OutputFrame {
    type V = (Seq<char>, bool);

    open spec fn view(&self) -> (Seq<char>, bool) {
        (self.content@, self.overwrite)
    }
}

/// The frames of a sequence of output frames, as mathematical values.
pub open spec fn frames_view(v: Seq<OutputFrame>) -> Seq<(Seq<char>, bool)> {
    v.map_values(|f: OutputFrame| f@)
}

/// Scans `text` character by character, starting with `pending` as the text
/// accumulated since the last terminator. Returns the frames emitted and the
/// text left pending: `'\n'` emits an append frame, `'\r'` an overwrite frame,
/// any other character is accumulated.
pub open spec fn scan(pending: Seq<char>, text: Seq<char>) -> (Seq<(Seq<char>, bool)>, Seq<char>)
    decreases text.len(),
{
    if text.len() == 0 {
        (seq![], pending)
    } else {
        let (frames, rest) = scan(pending, text.drop_last());
        let c = text.last();
        if c == '\n' {
            (frames.push((rest, false)), seq![])
        } else if c == '\r' {
            (frames.push((rest, true)), seq![])
        } else {
            (frames, rest.push(c))
        }
    }
}

/// What is emitted when the stream ends with `pending` not yet terminated.
pub open spec fn flush(pending: Seq<char>) -> Seq<(Seq<char>, bool)> {
    if pending.len() > 0 {
        seq![(pending, false)]
    } else {
        seq![]
    }
}

/// All frames of a stream whose whole decoded text is `text`: the frames of
/// the scan from an empty line, then the flush at end of file.
pub open spec fn stream_frames(text: Seq<char>) -> Seq<(Seq<char>, bool)> {
    scan(seq![], text).0 + flush(scan(seq![], text).1)
}

/// Number of `'\n'` characters in `text`.
pub open spec fn newline_count(text: Seq<char>) -> nat
    decreases text.len(),
{
    if text.len() == 0 {
        0
    } else {
        newline_count(text.drop_last()) + if text.last() == '\n' {
            1nat
        } else {
            0nat
        }
    }
}

/// Number of append (`overwrite == false`) frames in `frames`.
pub open spec fn append_count(frames: Seq<(Seq<char>, bool)>) -> nat
    decreases frames.len(),
{
    if frames.len() == 0 {
        0
    } else {
        append_count(frames.drop_last()) + if !frames.last().1 {
            1nat
        } else {
            0nat
        }
    }
}

/// Whether `s` holds neither `'\n'` nor `'\r'`.
pub open spec fn unterminated(s: Seq<char>) -> bool {
    forall|i: int| 0 <= i < s.len() ==> s[i] != '\n' && s[i] != '\r'
}

/// Chunk boundaries do not matter: scanning `a` and then `b` gives the same
/// frames and the same pending text as scanning `a + b` at once.
pub proof fn lemma_scan_split(pending: Seq<char>, a: Seq<char>, b: Seq<char>)
    ensures
        scan(pending, a + b) == (
            scan(pending, a).0 + scan(scan(pending, a).1, b).0,
            scan(scan(pending, a).1, b).1,
        ),
    decreases b.len(),
{
    let mid = scan(pending, a).1;
    if b.len() == 0 {
        assert(a + b =~= a);
        assert(scan(pending, a).0 + scan(mid, b).0 =~= scan(pending, a).0);
    } else {
        assert((a + b).drop_last() =~= a + b.drop_last());
        assert((a + b).last() == b.last());
        lemma_scan_split(pending, a, b.drop_last());
        let c = b.last();
        if c == '\n' || c == '\r' {
            assert(scan(pending, a).0 + scan(mid, b.drop_last()).0.push((scan(mid, b.drop_last()).1, c == '\r'))
                =~= (scan(pending, a).0 + scan(mid, b.drop_last()).0).push((scan(mid, b.drop_last()).1, c == '\r')));
        }
    }
}

/// The text of a sequence of chunks, in order.
pub open spec fn joined(chunks: Seq<Seq<char>>) -> Seq<char>
    decreases chunks.len(),
{
    if chunks.len() == 0 {
        seq![]
    } else {
        joined(chunks.drop_last()) + chunks.last()
    }
}

/// Scans a sequence of chunks one after the other, carrying the pending text.
pub open spec fn scan_chunks(pending: Seq<char>, chunks: Seq<Seq<char>>) -> (Seq<(Seq<char>, bool)>, Seq<char>)
    decreases chunks.len(),
{
    if chunks.len() == 0 {
        (seq![], pending)
    } else {
        let (before, mid) = scan_chunks(pending, chunks.drop_last());
        (before + scan(mid, chunks.last()).0, scan(mid, chunks.last()).1)
    }
}

/// Feeding a stream chunk by chunk gives the frames and pending text of
/// feeding its whole text at once.
pub proof fn lemma_chunks_as_one(pending: Seq<char>, chunks: Seq<Seq<char>>)
    ensures
        scan_chunks(pending, chunks) == scan(pending, joined(chunks)),
    decreases chunks.len(),
{
    if chunks.len() > 0 {
        lemma_chunks_as_one(pending, chunks.drop_last());
        lemma_scan_split(pending, joined(chunks.drop_last()), chunks.last());
    }
}

proof fn lemma_append_count_concat(x: Seq<(Seq<char>, bool)>, y: Seq<(Seq<char>, bool)>)
    ensures
        append_count(x + y) == append_count(x) + append_count(y),
    decreases y.len(),
{
    if y.len() == 0 {
        assert(x + y =~= x);
    } else {
        assert((x + y).drop_last() =~= x + y.drop_last());
        lemma_append_count_concat(x, y.drop_last());
    }
}

proof fn lemma_scan_appends(pending: Seq<char>, text: Seq<char>)
    ensures
        append_count(scan(pending, text).0) == newline_count(text),
    decreases text.len(),
{
    if text.len() > 0 {
        lemma_scan_appends(pending, text.drop_last());
        let fs = scan(pending, text.drop_last()).0;
        let c = text.last();
        if c == '\n' || c == '\r' {
            assert(fs.push((scan(pending, text.drop_last()).1, c == '\r')).drop_last() =~= fs);
        }
    }
}

/// Over a whole stream, the number of append frames equals the number of
/// `'\n'` characters, plus one when unterminated text is left at end of file.
pub proof fn lemma_append_frames_count_newlines(text: Seq<char>)
    ensures
        append_count(stream_frames(text)) == newline_count(text) + if scan(seq![], text).1.len() > 0 {
            1nat
        } else {
            0nat
        },
{
    let (fs, rest) = scan(seq![], text);
    lemma_scan_appends(seq![], text);
    lemma_append_count_concat(fs, flush(rest));
    let none = Seq::<(Seq<char>, bool)>::empty();
    assert(append_count(none) == 0);
    if rest.len() > 0 {
        assert(flush(rest).drop_last() =~= none);
        assert(append_count(flush(rest)) == 1);
    } else {
        assert(flush(rest) =~= none);
    }
}

proof fn lemma_scan_unterminated(pending: Seq<char>, s: Seq<char>)
    requires
        unterminated(s),
    ensures
        scan(pending, s) == (Seq::<(Seq<char>, bool)>::empty(), pending + s),
    decreases s.len(),
{
    if s.len() == 0 {
        assert(pending + s =~= pending);
    } else {
        lemma_scan_unterminated(pending, s.drop_last());
        assert((pending + s.drop_last()).push(s.last()) =~= pending + s);
    }
}

/// A carriage return emits an overwrite frame holding everything accumulated
/// since the previous terminator, and scanning then starts from an empty line.
pub proof fn lemma_carriage_return_frame(pending: Seq<char>, s: Seq<char>, rest: Seq<char>)
    requires
        unterminated(s),
    ensures
        scan(pending, s.push('\r') + rest) == (
            seq![(pending + s, true)] + scan(seq![], rest).0,
            scan(seq![], rest).1,
        ),
{
    lemma_scan_unterminated(pending, s);
    assert(s.push('\r').drop_last() =~= s);
    lemma_scan_split(pending, s.push('\r'), rest);
}

/// Accumulates the characters of one output stream and cuts them into frames.
pub struct LineFramer {
    pending: Vec<char>,
}

impl View for LineFramer {
    type V = Seq<char>;

    closed spec fn view(&self) -> Seq<char> {
        self.pending@
    }
}

impl LineFramer {
    pub fn new() -> (r: LineFramer)
        ensures
            r@ == Seq::<char>::empty(),
    {
        LineFramer { pending: Vec::new() }
    }

    /// Text accumulated since the last terminator.
    pub fn pending(&self) -> (r: String)
        ensures
            r@ == self@,
    {
        string_from_chars(self.pending.as_slice())
    }

    /// Feeds decoded text and returns the frames it completes, in order.
    pub fn push_text(&mut self, text: &str) -> (r: Vec<OutputFrame>)
        ensures
            frames_view(r@) == scan(old(self)@, text@).0,
            final(self)@ == scan(old(self)@, text@).1,
    {
        let ghost start = self@;
        let mut out: Vec<OutputFrame> = Vec::new();
        let mut it = text.chars();
        for c in iter: it
            invariant
                iter.seq() == text@,
                frames_view(out@) == scan(start, text@.take(iter.index() as int)).0,
                self@ == scan(start, text@.take(iter.index() as int)).1,
        {
            let ghost i = iter.index() as int;
            assert(text@.take(i + 1).drop_last() == text@.take(i));
            if c == '\n' || c == '\r' {
                let content = string_from_chars(self.pending.as_slice());
                out.push(OutputFrame { content, overwrite: c == '\r' });
                self.pending = Vec::new();
            } else {
                self.pending.push(c);
            }
            assert(frames_view(out@) =~= scan(start, text@.take(i + 1)).0);
        }
        assert(text@.take(text@.len() as int) == text@);
        out
    }

    /// Ends the stream: returns the unterminated rest as a final append frame, if any.
    pub fn finish(self) -> (r: Vec<OutputFrame>)
        ensures
            frames_view(r@) == flush(self@),
    {
        let mut out: Vec<OutputFrame> = Vec::new();
        if self.pending.len() > 0 {
            let content = string_from_chars(self.pending.as_slice());
            out.push(OutputFrame { content, overwrite: false });
        }
        assert(frames_view(out@) =~= flush(self@));
        out
    }
}

} // verus!
