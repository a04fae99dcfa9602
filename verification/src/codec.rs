//! The frame codec: a line of text becomes the frames of one message, and
//! the frames of a received message become text to display.

use vstd::prelude::*;
use vstd::string::*;
use vstd::utf8::*;
use crate::split::{
    count, join, join_rest, lemma_join_split, lemma_next_match_skip, lemma_split_len, matches_at,
    split, split_from,
};
use crate::text::chars_of;

verus! {

/// How a line maps to the frames of a message.
#[derive(Debug)]
pub enum FramingMode {
    /// The whole line is one frame.
    SingleFrame,
    /// The line is cut at every occurrence of the separator.
    MultiFrame(String),
}

impl FramingMode {
    /// A separator, where there is one, is not empty.
    pub open spec fn wf(&self) -> bool {
        match self {
            FramingMode::SingleFrame => true,
            FramingMode::MultiFrame(sep) => sep@.len() > 0,
        }
    }

    /// The separator as a sequence of characters, where there is one.
    pub open spec fn separator(&self) -> Option<Seq<char>> {
        match self {
            FramingMode::SingleFrame => None,
            FramingMode::MultiFrame(sep) => Some(sep@),
        }
    }

    /// The mode with no separator.
    pub fn single() -> (mode: FramingMode)
        ensures
            mode.wf(),
            mode.separator() == None::<Seq<char>>,
    {
        FramingMode::SingleFrame
    }

    /// The mode that cuts at `sep`; an empty separator is refused.
    pub fn multi(sep: String) -> (mode: Option<FramingMode>)
        ensures
            sep@.len() == 0 <==> mode is None,
            mode matches Some(m) ==> m.wf() && m.separator() == Some(sep@),
    {
        if sep.as_str().is_empty() {
            None
        } else {
            Some(FramingMode::MultiFrame(sep))
        }
    }
}

/// The frames of a message as sequences of bytes.
pub open spec fn frames_view(frames: Seq<Vec<u8>>) -> Seq<Seq<u8>> {
    frames.map_values(|f: Vec<u8>| f@)
}

/// A list of strings as sequences of characters.
pub open spec fn texts_view(texts: Seq<String>) -> Seq<Seq<char>> {
    texts.map_values(|t: String| t@)
}

/// The bytes of each piece of text.
pub open spec fn encode_pieces(pieces: Seq<Seq<char>>) -> Seq<Seq<u8>> {
    pieces.map_values(|piece: Seq<char>| encode_utf8(piece))
}

/// The text shown for each frame.
pub open spec fn frame_texts(frames: Seq<Seq<u8>>) -> Seq<Seq<char>> {
    frames.map_values(|f: Seq<u8>| frame_text(f))
}

/// The frames that a line is sent as: its bytes as one frame where there
/// is no separator, else the bytes of each piece between separators.
pub open spec fn spec_encode(line: Seq<char>, sep: Option<Seq<char>>) -> Seq<Seq<u8>> {
    match sep {
        None => seq![encode_utf8(line)],
        Some(s) => encode_pieces(split(line, s)),
    }
}

/// The lenient reading of bytes as text, in which each malformed stretch
/// gives a replacement character.
pub uninterp spec fn lossy_text(bytes: Seq<u8>) -> Seq<char>;

/// The text shown for a frame: what its bytes spell where they are valid
/// UTF-8, else the lenient reading.
pub open spec fn frame_text(bytes: Seq<u8>) -> Seq<char> {
    if valid_utf8(bytes) {
        decode_utf8(bytes)
    } else {
        lossy_text(bytes)
    }
}

/// The first line of the display of a message of several frames that was
/// received where no separator is configured.
pub open spec fn begin_marker() -> Seq<char> {
    "BEGIN MULTIPART MESSAGE"@
}

/// The last line of that display.
pub open spec fn end_marker() -> Seq<char> {
    "END MULTIPART MESSAGE"@
}

/// The display of several frames where no separator is configured: the
/// begin marker, each frame's text and the end marker, one per line.
pub open spec fn bracketed(texts: Seq<Seq<char>>) -> Seq<char> {
    join(seq![begin_marker()] + texts + seq![end_marker()], seq!['\n'])
}

/// The display of a message whose frames read as `texts`.
pub open spec fn spec_render(texts: Seq<Seq<char>>, sep: Option<Seq<char>>) -> Seq<char> {
    if texts.len() == 1 {
        texts[0]
    } else {
        match sep {
            None => bracketed(texts),
            Some(s) => join(texts, s),
        }
    }
}

/// The display of a message with the given frames.
pub open spec fn spec_decode(frames: Seq<Seq<u8>>, sep: Option<Seq<char>>) -> Seq<char> {
    spec_render(frame_texts(frames), sep)
}

/// Reads bytes as text with `String::from_utf8_lossy`. Trusted, not
/// proved: the result is the lenient reading of the bytes, which is only
/// named here, and valid UTF-8 comes back as the text it spells.
#[verifier::external_body]
fn lossy(bytes: &[u8]) -> (out: String)
    ensures
        out@ == lossy_text(bytes@),
        valid_utf8(bytes@) ==> out@ == decode_utf8(bytes@),
{
    String::from_utf8_lossy(bytes).into_owned()
}

/// Whether `sep` stands in `line` at position `i`.
fn occurs_at(line: &Vec<char>, sep: &Vec<char>, i: usize) -> (r: bool)
    requires
        sep@.len() > 0,
        i + sep@.len() <= line@.len(),
    ensures
        r == matches_at(line@, sep@, i as int),
{
    let n: usize = line.len();
    let mut j: usize = 0;
    while j < sep.len()
        invariant
            j <= sep@.len(),
            n == line@.len(),
            i + sep@.len() <= line@.len(),
            forall|t: int| 0 <= t < j ==> line@[i + t] == sep@[t],
        decreases sep@.len() - j,
    {
        if line[i + j] != sep[j] {
            assert(line@.subrange(i as int, i + sep@.len())[j as int] != sep@[j as int]);
            return false;
        }
        j += 1;
    }
    assert(line@.subrange(i as int, i + sep@.len()) =~= sep@);
    true
}

/// Cuts `line` at every occurrence of `sep` and gives the bytes of each
/// piece, in order.
pub fn split_line(line: &str, sep: &str) -> (frames: Vec<Vec<u8>>)
    requires
        sep@.len() > 0,
    ensures
        frames_view(frames@) == encode_pieces(split(line@, sep@)),
        frames@.len() == count(line@, sep@) + 1,
{
    let chars = chars_of(line);
    let pat = chars_of(sep);
    let n: usize = chars.len();
    let k: usize = pat.len();
    let mut frames: Vec<Vec<u8>> = Vec::new();
    let mut from: usize = 0;
    let mut i: usize = 0;
    let ghost mut done: Seq<Seq<char>> = Seq::empty();
    while k <= n && i <= n - k
        invariant
            chars@ == line@,
            pat@ == sep@,
            n == line@.len(),
            k == sep@.len(),
            k > 0,
            from <= i <= n,
            forall|j: int| from <= j < i ==> !matches_at(line@, sep@, j),
            done + split_from(line@, sep@, from as int) == split(line@, sep@),
            frames_view(frames@) == encode_pieces(done),
        decreases n - i,
    {
        if occurs_at(&chars, &pat, i) {
            let piece = line.substring_char(from, i).as_bytes_vec();
            proof {
                lemma_next_match_skip(line@, sep@, from as int, i as int);
                let head = line@.subrange(from as int, i as int);
                let rest = split_from(line@, sep@, i + k);
                assert(split_from(line@, sep@, from as int) == seq![head] + rest);
                assert(done.push(head) + rest =~= done + (seq![head] + rest));
                assert(piece@ == encode_utf8(head));
                assert(frames_view(frames@.push(piece)) =~= frames_view(frames@).push(piece@));
                assert(encode_pieces(done.push(head)) =~= encode_pieces(done).push(
                    encode_utf8(head),
                ));
                done = done.push(head);
            }
            frames.push(piece);
            from = i + k;
            i = from;
        } else {
            i += 1;
        }
    }
    let piece = line.substring_char(from, n).as_bytes_vec();
    proof {
        lemma_next_match_skip(line@, sep@, from as int, i as int);
        let last = line@.subrange(from as int, n as int);
        assert(split_from(line@, sep@, from as int) == seq![last]);
        assert(done.push(last) =~= done + seq![last]);
        assert(piece@ == encode_utf8(last));
        assert(frames_view(frames@.push(piece)) =~= frames_view(frames@).push(piece@));
        assert(encode_pieces(done.push(last)) =~= encode_pieces(done).push(encode_utf8(last)));
        lemma_split_len(line@, sep@);
    }
    frames.push(piece);
    frames
}

/// The frames that `line` is sent as under `mode`.
pub fn encode(line: &str, mode: &FramingMode) -> (frames: Vec<Vec<u8>>)
    requires
        mode.wf(),
    ensures
        frames_view(frames@) == spec_encode(line@, mode.separator()),
        mode.separator() is None ==> frames@.len() == 1,
        mode.separator() matches Some(s) ==> frames@.len() == count(line@, s) + 1,
{
    match mode {
        FramingMode::SingleFrame => {
            let mut frames: Vec<Vec<u8>> = Vec::new();
            let whole = line.as_bytes_vec();
            assert(frames_view(frames@.push(whole)) =~= seq![encode_utf8(line@)]);
            frames.push(whole);
            frames
        },
        FramingMode::MultiFrame(sep) => split_line(line, sep.as_str()),
    }
}

/// The strings of `texts` in order, with `sep` between neighbours.
pub fn join_texts(texts: &Vec<String>, sep: &str) -> (out: String)
    ensures
        out@ == join(texts_view(texts@), sep@),
{
    let mut out = String::new();
    if texts.len() == 0 {
        return out;
    }
    out.append(texts[0].as_str());
    let ghost parts = texts_view(texts@);
    assert(out@ =~= parts[0]);
    assert(parts.drop_first() =~= parts.skip(1));
    let mut i: usize = 1;
    while i < texts.len()
        invariant
            1 <= i <= texts@.len(),
            parts == texts_view(texts@),
            out@ + join_rest(parts.skip(i as int), sep@) == join(parts, sep@),
        decreases texts@.len() - i,
    {
        proof {
            assert(parts.skip(i as int).drop_first() =~= parts.skip(i + 1));
            assert(out@ + sep@ + parts[i as int] + join_rest(parts.skip(i + 1), sep@) =~= out@
                + join_rest(parts.skip(i as int), sep@));
        }
        out.append(sep);
        out.append(texts[i].as_str());
        i += 1;
    }
    assert(out@ + Seq::<char>::empty() =~= out@);
    out
}

/// The display of a message whose frames read as `texts`: a single frame
/// as it is; several frames joined by the separator where one is
/// configured, else one per line between the two marker lines.
pub fn render(texts: &Vec<String>, mode: &FramingMode) -> (out: String)
    ensures
        out@ == spec_render(texts_view(texts@), mode.separator()),
{
    if texts.len() == 1 {
        return texts[0].clone();
    }
    match mode {
        FramingMode::SingleFrame => {
            let mut lines: Vec<String> = Vec::new();
            lines.push(String::from_str("BEGIN MULTIPART MESSAGE"));
            let mut i: usize = 0;
            while i < texts.len()
                invariant
                    i <= texts@.len(),
                    texts_view(lines@) == seq![begin_marker()] + texts_view(texts@).take(i as int),
                decreases texts@.len() - i,
            {
                let text = texts[i].clone();
                assert(text@ == texts@[i as int]@);
                assert(texts_view(lines@.push(text)) =~= texts_view(lines@).push(text@));
                assert(texts_view(texts@).take(i + 1) =~= texts_view(texts@).take(i as int).push(
                    text@,
                ));
                lines.push(text);
                i += 1;
            }
            let last = String::from_str("END MULTIPART MESSAGE");
            proof {
                reveal_strlit("\n");
                assert(texts_view(texts@).take(i as int) =~= texts_view(texts@));
                assert(texts_view(lines@.push(last)) =~= seq![begin_marker()] + texts_view(texts@)
                    + seq![end_marker()]);
                assert("\n"@ =~= seq!['\n']);
            }
            lines.push(last);
            join_texts(&lines, "\n")
        },
        FramingMode::MultiFrame(sep) => join_texts(texts, sep.as_str()),
    }
}

/// The display of a received message under `mode`.
pub fn decode(frames: &Vec<Vec<u8>>, mode: &FramingMode) -> (out: String)
    ensures
        out@ == spec_decode(frames_view(frames@), mode.separator()),
{
    let mut texts: Vec<String> = Vec::new();
    let mut i: usize = 0;
    while i < frames.len()
        invariant
            i <= frames@.len(),
            texts@.len() == i,
            forall|j: int| 0 <= j < i ==> (#[trigger] texts@[j])@ == frame_text(frames@[j]@),
        decreases frames@.len() - i,
    {
        let text = lossy(frames[i].as_slice());
        texts.push(text);
        i += 1;
    }
    assert(texts_view(texts@) =~= frame_texts(frames_view(frames@)));
    render(&texts, mode)
}

/// Sending a line as one frame and displaying what was sent gives back the
/// line.
pub proof fn lemma_round_trip_single(line: Seq<char>)
    ensures
        spec_decode(spec_encode(line, None), None) == line,
{
    broadcast use encode_utf8_valid_utf8, encode_utf8_decode_utf8;
}

/// Cutting a line at a separator and displaying the frames with the same
/// separator gives back the line.
pub proof fn lemma_round_trip(line: Seq<char>, sep: Seq<char>)
    requires
        sep.len() > 0,
    ensures
        spec_decode(spec_encode(line, Some(sep)), Some(sep)) == line,
{
    broadcast use encode_utf8_valid_utf8, encode_utf8_decode_utf8;
    let pieces = split(line, sep);
    assert(frame_texts(encode_pieces(pieces)) =~= pieces);
    lemma_join_split(line, sep);
    lemma_split_len(line, sep);
    if pieces.len() == 1 {
        assert(pieces.drop_first() =~= Seq::<Seq<char>>::empty());
        assert(join(pieces, sep) =~= pieces[0]);
    }
}

/// With no separator a line is sent as exactly one frame, its bytes.
pub proof fn lemma_single_frame_encode(line: Seq<char>)
    ensures
        spec_encode(line, None) == seq![encode_utf8(line)],
{
}

/// A message of one frame is displayed as that frame's text, whatever the
/// mode.
pub proof fn lemma_single_frame_decode(frame: Seq<u8>, sep: Option<Seq<char>>)
    ensures
        spec_decode(seq![frame], sep) == frame_text(frame),
{
}

/// With a separator, a line is sent as one frame more than the separator
/// occurs in it.
pub proof fn lemma_frame_count(line: Seq<char>, sep: Seq<char>)
    ensures
        spec_encode(line, Some(sep)).len() == count(line, sep) + 1,
{
    lemma_split_len(line, sep);
}

} // verus!
