//! The framing of messages on a byte stream.
//!
//! A frame is a block of header lines, each `Name: value`, an empty line, and
//! a body of as many bytes as the header `Content-Length` says. Other headers,
//! `Content-Type` among them, are accepted and ignored. A line ends with
//! CR LF; a line that ends with a bare LF is read all the same. Frames are
//! written with CR LF. What the body holds is not the codec's concern: it
//! hands out the bytes.
//!
//! [`decode_frame`] defines what the bytes received so far hold, and
//! [`LspCodec::decode`] computes it; [`frame`] defines the bytes of a frame,
//! and [`LspCodec::encode`] writes them. [`lemma_frame_round_trip`] shows that
//! a written frame is read back as the same bytes, and
//! [`lemma_frame_prefix_incomplete`] that it is not read before it is whole.
use crate::text::bytes_eq;
use vstd::prelude::*;
use vstd::slice::slice_subrange;
use vstd::string::{is_ascii_spec_bytes, StringSliceAdditionalSpecFns};
use vstd::utf8::is_ascii_chars;

verus! {

/// Why the bytes received are no frame.
#[derive(Clone, Copy, Debug, PartialEq, Eq, Structural)]
pub enum FramingError {
    /// The header block has no `Content-Length` line.
    MissingContentLength,
    /// A header line has no colon, or nothing before it.
    MalformedHeader,
    /// The value of `Content-Length` is not a decimal number that fits the
    /// machine's word.
    InvalidLength,
    /// The input ended inside a frame.
    UnexpectedEof,
}

/// What the bytes received so far hold.
pub enum Decoded {
    /// No complete frame yet: more bytes are needed.
    Incomplete,
    /// A frame with this body, which takes up the first `consumed` bytes.
    Frame { body: Seq<u8>, consumed: int },
    /// No frame.
    Invalid(FramingError),
}

/// What the header lines received so far say.
pub enum Headers {
    /// The empty line that ends the header block has not arrived yet.
    Incomplete,
    /// A line is faulty.
    Invalid(FramingError),
    /// The header block is complete: the body starts at index `start`, and
    /// `length` is what the last `Content-Length` line said, if there was one.
    End { start: int, length: Option<usize> },
}

/// The bytes of a text of ASCII characters.
pub open spec fn ascii(text: Seq<char>) -> Seq<u8> {
    Seq::new(text.len(), |i: int| text[i] as u8)
}

/// CR LF CR LF, which ends the header block of a written frame.
pub open spec fn header_end() -> Seq<u8> {
    seq![13u8, 10u8, 13u8, 10u8]
}

/// The first index from `from` on at which `byte` stands in `buffer`.
pub open spec fn position(buffer: Seq<u8>, byte: u8, from: int) -> Option<int>
    decreases buffer.len() - from,
{
    if from < 0 || from >= buffer.len() {
        None
    } else if buffer[from] == byte {
        Some(from)
    } else {
        position(buffer, byte, from + 1)
    }
}

/// A line without the CR at its end, if it has one.
pub open spec fn strip_cr(line: Seq<u8>) -> Seq<u8> {
    if line.len() > 0 && line.last() == 13 {
        line.drop_last()
    } else {
        line
    }
}

/// A space or a tab.
pub open spec fn is_blank(byte: u8) -> bool {
    byte == 32 || byte == 9
}

/// `bytes` without the blanks at its start.
pub open spec fn trim_start(bytes: Seq<u8>) -> Seq<u8>
    decreases bytes.len(),
{
    if bytes.len() > 0 && is_blank(bytes[0]) {
        trim_start(bytes.drop_first())
    } else {
        bytes
    }
}

/// `bytes` without the blanks at its end.
pub open spec fn trim_end(bytes: Seq<u8>) -> Seq<u8>
    decreases bytes.len(),
{
    if bytes.len() > 0 && is_blank(bytes.last()) {
        trim_end(bytes.drop_last())
    } else {
        bytes
    }
}

/// `bytes` without the blanks at both ends.
pub open spec fn trim(bytes: Seq<u8>) -> Seq<u8> {
    trim_end(trim_start(bytes))
}

/// Whether `bytes` is a non-empty run of decimal digits.
pub open spec fn is_digits(bytes: Seq<u8>) -> bool {
    &&& bytes.len() > 0
    &&& forall|i: int| 0 <= i < bytes.len() ==> 48 <= #[trigger] bytes[i] <= 57
}

/// The number that a run of decimal digits denotes.
pub open spec fn digits_value(bytes: Seq<u8>) -> nat
    decreases bytes.len(),
{
    if bytes.len() == 0 {
        0
    } else {
        (digits_value(bytes.drop_last()) * 10 + (bytes.last() - 48)) as nat
    }
}

/// The length that the value of a `Content-Length` header gives.
pub open spec fn parse_length(value: Seq<u8>) -> Option<usize> {
    if is_digits(value) && digits_value(value) <= usize::MAX {
        Some(digits_value(value) as usize)
    } else {
        None
    }
}

/// The decimal digits of a number, without leading zeros.
pub open spec fn decimal(n: nat) -> Seq<u8>
    decreases n,
{
    if n < 10 {
        seq![(48 + n) as u8]
    } else {
        decimal(n / 10).push((48 + n % 10) as u8)
    }
}

/// What one header line says of the body's length: `Ok(None)` for a well
/// formed line with another name.
pub open spec fn line_length(line: Seq<u8>) -> Result<Option<usize>, FramingError> {
    match position(line, 58, 0) {
        None => Err(FramingError::MalformedHeader),
        Some(colon) => if colon == 0 {
            Err(FramingError::MalformedHeader)
        } else if line.subrange(0, colon) == ascii("Content-Length"@) {
            match parse_length(trim(line.subrange(colon + 1, line.len() as int))) {
                Some(length) => Ok(Some(length)),
                None => Err(FramingError::InvalidLength),
            }
        } else {
            Ok(None)
        },
    }
}

/// What the header lines from index `from` on say, given what the lines
/// before them said of the body's length. A line ends at the next LF, and a
/// CR before the LF belongs to the line end. The lines are read in order: the
/// first faulty line decides the error, a later `Content-Length` replaces an
/// earlier one, and the first empty line ends the block.
pub open spec fn scan_headers(buffer: Seq<u8>, from: int, found: Option<usize>) -> Headers
    decreases buffer.len() - from,
{
    match position(buffer, 10, from) {
        Some(end) if from <= end < buffer.len() => {
            let line = strip_cr(buffer.subrange(from, end));
            if line.len() == 0 {
                Headers::End { start: end + 1, length: found }
            } else {
                match line_length(line) {
                    Err(error) => Headers::Invalid(error),
                    Ok(Some(length)) => scan_headers(buffer, end + 1, Some(length)),
                    Ok(None) => scan_headers(buffer, end + 1, found),
                }
            }
        },
        _ => Headers::Incomplete,
    }
}

/// What the bytes received so far hold. Until the header block is complete,
/// and until the whole body has arrived, the frame is incomplete.
pub open spec fn decode_frame(buffer: Seq<u8>) -> Decoded {
    match scan_headers(buffer, 0, None) {
        Headers::Incomplete => Decoded::Incomplete,
        Headers::Invalid(error) => Decoded::Invalid(error),
        Headers::End { start, length: None } => Decoded::Invalid(
            FramingError::MissingContentLength,
        ),
        Headers::End { start, length: Some(length) } => {
            if buffer.len() < start + length {
                Decoded::Incomplete
            } else {
                Decoded::Frame {
                    body: buffer.subrange(start, start + length),
                    consumed: start + length,
                }
            }
        },
    }
}

/// What is left in the buffer when the input has ended: nothing, or a frame,
/// or the start of one, which is an error.
pub open spec fn decode_last_frame(buffer: Seq<u8>) -> Decoded {
    match decode_frame(buffer) {
        Decoded::Incomplete => if buffer.len() == 0 {
            Decoded::Incomplete
        } else {
            Decoded::Invalid(FramingError::UnexpectedEof)
        },
        other => other,
    }
}

/// The line of a written header that names the length: the header without
/// the CR LF CR LF at its end.
pub open spec fn length_line(length: nat) -> Seq<u8> {
    ascii("Content-Length: "@) + decimal(length)
}

/// The header of a frame whose body has `length` bytes: the one line that
/// names the length, and the empty line.
pub open spec fn header(length: nat) -> Seq<u8> {
    length_line(length) + header_end()
}

/// The bytes of the frame with this body.
pub open spec fn frame(body: Seq<u8>) -> Seq<u8> {
    header(body.len()) + body
}

/// A frame takes up at least one byte, and no more bytes than there are.
pub open spec fn frame_within(decoded: Decoded, buffer: Seq<u8>) -> bool {
    match decoded {
        Decoded::Frame { body, consumed } => 0 < consumed <= buffer.len(),
        _ => true,
    }
}

/// What an executable decoder hands back, as a plain value.
pub open spec fn decoded_view(decoded: Result<Option<(&[u8], usize)>, FramingError>) -> Decoded {
    match decoded {
        Ok(None) => Decoded::Incomplete,
        Ok(Some((body, consumed))) => Decoded::Frame { body: body@, consumed: consumed as int },
        Err(error) => Decoded::Invalid(error),
    }
}

/// Where `position` finds the byte it stands, and nowhere before; where it
/// finds none, there is none.
pub proof fn lemma_position(buffer: Seq<u8>, byte: u8, from: int)
    requires
        0 <= from,
    ensures
        match position(buffer, byte, from) {
            Some(at) => {
                &&& from <= at < buffer.len()
                &&& buffer[at] == byte
                &&& forall|other: int| from <= other < at ==> buffer[other] != byte
            },
            None => forall|other: int| from <= other < buffer.len() ==> buffer[other] != byte,
        },
    decreases buffer.len() - from,
{
    if from < buffer.len() && buffer[from] != byte {
        lemma_position(buffer, byte, from + 1);
    }
}

/// The first place from `from` on at which the byte stands is what
/// `position` finds.
pub proof fn lemma_position_is(buffer: Seq<u8>, byte: u8, from: int, at: int)
    requires
        0 <= from <= at < buffer.len(),
        buffer[at] == byte,
        forall|other: int| from <= other < at ==> buffer[other] != byte,
    ensures
        position(buffer, byte, from) == Some(at),
    decreases at - from,
{
    if from < at {
        lemma_position_is(buffer, byte, from + 1, at);
    }
}

/// The digits of a number denote it.
pub proof fn lemma_decimal(n: nat)
    ensures
        is_digits(decimal(n)),
        digits_value(decimal(n)) == n,
    decreases n,
{
    if n < 10 {
        assert(decimal(n).drop_last() =~= Seq::<u8>::empty());
        assert(digits_value(decimal(n).drop_last()) == 0);
    } else {
        lemma_decimal(n / 10);
        assert(decimal(n).drop_last() =~= decimal(n / 10));
    }
}

/// A run of digits denotes at least what any of its prefixes does.
pub proof fn lemma_digits_prefix(bytes: Seq<u8>, len: int)
    requires
        0 <= len <= bytes.len(),
        forall|i: int| 0 <= i < bytes.len() ==> 48 <= #[trigger] bytes[i] <= 57,
    ensures
        digits_value(bytes.subrange(0, len)) <= digits_value(bytes),
    decreases bytes.len() - len,
{
    if len < bytes.len() {
        lemma_digits_prefix(bytes, len + 1);
        let longer = bytes.subrange(0, len + 1);
        assert(longer.drop_last() =~= bytes.subrange(0, len));
    } else {
        assert(bytes.subrange(0, len) =~= bytes);
    }
}

/// Trimming the start skips exactly the leading blanks.
proof fn lemma_trim_start(bytes: Seq<u8>, skipped: int)
    requires
        0 <= skipped <= bytes.len(),
        forall|i: int| 0 <= i < skipped ==> is_blank(#[trigger] bytes[i]),
        skipped < bytes.len() ==> !is_blank(bytes[skipped]),
    ensures
        trim_start(bytes) == bytes.subrange(skipped, bytes.len() as int),
    decreases skipped,
{
    if skipped == 0 {
        assert(bytes.subrange(0, bytes.len() as int) =~= bytes);
    } else {
        let rest = bytes.drop_first();
        assert forall|i: int| 0 <= i < skipped - 1 implies is_blank(#[trigger] rest[i]) by {
            assert(rest[i] == bytes[i + 1]);
        }
        lemma_trim_start(rest, skipped - 1);
        assert(rest.subrange(skipped - 1, rest.len() as int) =~= bytes.subrange(
            skipped,
            bytes.len() as int,
        ));
    }
}

/// Trimming the end drops exactly the trailing blanks.
proof fn lemma_trim_end(bytes: Seq<u8>, kept: int)
    requires
        0 <= kept <= bytes.len(),
        forall|i: int| kept <= i < bytes.len() ==> is_blank(#[trigger] bytes[i]),
        kept > 0 ==> !is_blank(bytes[kept - 1]),
    ensures
        trim_end(bytes) == bytes.subrange(0, kept),
    decreases bytes.len() - kept,
{
    if kept == bytes.len() {
        assert(bytes.subrange(0, kept) =~= bytes);
    } else {
        let rest = bytes.drop_last();
        lemma_trim_end(rest, kept);
        assert(rest.subrange(0, kept) =~= bytes.subrange(0, kept));
    }
}

/// The line that names the length holds no LF and no CR, and it says the
/// length that it was written for.
proof fn lemma_length_line(length: nat)
    requires
        length <= usize::MAX,
    ensures
        forall|i: int|
            0 <= i < length_line(length).len() ==> (#[trigger] length_line(length)[i]) != 10
                && length_line(length)[i] != 13,
        line_length(length_line(length)) == Ok::<Option<usize>, FramingError>(
            Some(length as usize),
        ),
{
    reveal_strlit("Content-Length: ");
    reveal_strlit("Content-Length");
    let digits = decimal(length);
    let name = ascii("Content-Length: "@);
    let line = length_line(length);
    lemma_decimal(length);
    assert(name.len() == 16);
    assert(forall|i: int| 0 <= i < 16 ==> name[i] != 10 && name[i] != 13);
    assert(forall|i: int| 0 <= i < 14 ==> name[i] != 58);
    assert(name[14] == 58 && name[15] == 32);
    assert forall|i: int| 0 <= i < line.len() implies (#[trigger] line[i]) != 10 && line[i]
        != 13 by {
        if i >= 16 {
            assert(line[i] == digits[i - 16]);
        } else {
            assert(line[i] == name[i]);
        }
    }
    assert forall|other: int| 0 <= other < 14 implies line[other] != 58 by {
        assert(line[other] == name[other]);
    }
    lemma_position_is(line, 58, 0, 14);
    assert(line.subrange(0, 14) =~= ascii("Content-Length"@));
    let value = line.subrange(15, line.len() as int);
    assert(value =~= seq![32u8] + digits);
    lemma_trim_start(value, 1);
    assert(value.subrange(1, value.len() as int) =~= digits);
    lemma_trim_end(digits, digits.len() as int);
    assert(digits.subrange(0, digits.len() as int) =~= digits);
    assert(trim(value) == digits);
}

/// In a buffer that starts with the line that names a length and its CR LF,
/// the scan of the header block goes on behind that line, with that length.
proof fn lemma_length_line_read(buffer: Seq<u8>, length: nat)
    requires
        length <= usize::MAX,
        length_line(length).len() + 2 <= buffer.len(),
        buffer.subrange(0, length_line(length).len() as int + 2) == length_line(length) + seq![
            13u8,
            10u8,
        ],
    ensures
        scan_headers(buffer, 0, None) == scan_headers(
            buffer,
            length_line(length).len() as int + 2,
            Some(length as usize),
        ),
{
    let line = length_line(length);
    let end = line.len() as int;
    let start = buffer.subrange(0, end + 2);
    lemma_length_line(length);
    assert forall|i: int| 0 <= i < end + 2 implies buffer[i] == start[i] by {}
    assert forall|i: int| 0 <= i < end + 1 implies buffer[i] != 10 by {
        if i < end {
            assert(start[i] == line[i]);
        }
    }
    assert(buffer[end] == 13 && buffer[end + 1] == 10);
    lemma_position_is(buffer, 10, 0, end + 1);
    assert(buffer.subrange(0, end + 1).last() == 13);
    assert(strip_cr(buffer.subrange(0, end + 1)) =~= line);
}

/// A buffer that starts with the header of a frame has its header block end
/// where that header ends, and the block announces the length that the header
/// was written for.
proof fn lemma_header_read_back(buffer: Seq<u8>, length: nat)
    requires
        length <= usize::MAX,
        header(length).len() <= buffer.len(),
        buffer.subrange(0, header(length).len() as int) == header(length),
    ensures
        scan_headers(buffer, 0, None) == (Headers::End {
            start: header(length).len() as int,
            length: Some(length as usize),
        }),
{
    let written = header(length);
    let end = length_line(length).len() as int;
    assert forall|i: int| 0 <= i < end + 4 implies buffer[i] == written[i] by {
        assert(buffer.subrange(0, written.len() as int)[i] == buffer[i]);
    }
    assert(buffer.subrange(0, end + 2) =~= length_line(length) + seq![13u8, 10u8]);
    lemma_length_line_read(buffer, length);
    // The second line is empty.
    assert(buffer[end + 2] == 13 && buffer[end + 3] == 10);
    lemma_position_is(buffer, 10, end + 2, end + 3);
    assert(buffer.subrange(end + 2, end + 3) =~= seq![13u8]);
    assert(strip_cr(buffer.subrange(end + 2, end + 3)) =~= Seq::<u8>::empty());
}

/// As long as the header of a frame has not arrived whole, its header block
/// is incomplete.
proof fn lemma_header_prefix_incomplete(buffer: Seq<u8>, length: nat)
    requires
        length <= usize::MAX,
        buffer.len() < header(length).len(),
        buffer == header(length).subrange(0, buffer.len() as int),
    ensures
        scan_headers(buffer, 0, None) == Headers::Incomplete,
{
    let written = header(length);
    let end = length_line(length).len() as int;
    lemma_length_line(length);
    assert forall|i: int| 0 <= i < buffer.len() implies buffer[i] == written[i] by {}
    if buffer.len() >= end + 2 {
        // The first line has arrived, the empty line has not.
        assert(buffer.subrange(0, end + 2) =~= length_line(length) + seq![13u8, 10u8]);
        lemma_length_line_read(buffer, length);
        assert forall|i: int| end + 2 <= i < buffer.len() implies buffer[i] != 10 by {
            assert(written[end + 2] == 13);
        }
        lemma_position(buffer, 10, end + 2);
    } else {
        assert forall|i: int| 0 <= i < buffer.len() implies buffer[i] != 10 by {
            if i < end {
                assert(written[i] == length_line(length)[i]);
            } else {
                assert(written[end] == 13);
            }
        }
        lemma_position(buffer, 10, 0);
    }
}

/// A written frame is read back: whatever follows it in the buffer, the bytes
/// of the frame that carries a body decode to that body, and to the length of
/// the frame as the number of bytes taken up.
pub proof fn lemma_frame_round_trip(body: Seq<u8>, rest: Seq<u8>)
    requires
        body.len() <= usize::MAX,
    ensures
        decode_frame(frame(body) + rest) == (Decoded::Frame {
            body,
            consumed: frame(body).len() as int,
        }),
{
    let buffer = frame(body) + rest;
    let start = header(body.len()).len() as int;
    assert(buffer.subrange(0, start) =~= header(body.len()));
    lemma_header_read_back(buffer, body.len());
    assert(buffer.subrange(start, start + body.len()) =~= body);
}

/// A frame is read when it is whole and not before: as long as a byte of a
/// written frame is missing, the bytes that have arrived are neither a frame
/// nor an error.
pub proof fn lemma_frame_prefix_incomplete(body: Seq<u8>, cut: int)
    requires
        body.len() <= usize::MAX,
        0 <= cut < frame(body).len(),
    ensures
        decode_frame(frame(body).subrange(0, cut)) == Decoded::Incomplete,
{
    let whole = frame(body);
    let arrived = whole.subrange(0, cut);
    let start = header(body.len()).len() as int;
    if cut < start {
        assert(arrived =~= header(body.len()).subrange(0, cut));
        lemma_header_prefix_incomplete(arrived, body.len());
    } else {
        assert(arrived.subrange(0, start) =~= header(body.len()));
        lemma_header_read_back(arrived, body.len());
    }
}

/// The bytes of a text of ASCII characters.
fn ascii_bytes(text: &str) -> (bytes: &[u8])
    requires
        is_ascii_chars(text@),
    ensures
        bytes@ == ascii(text@),
{
    proof {
        is_ascii_spec_bytes(text);
    }
    text.as_bytes()
}

/// The first index from `from` on at which `byte` stands in `buffer`.
fn find(buffer: &[u8], byte: u8, from: usize) -> (found: Option<usize>)
    ensures
        match found {
            Some(at) => position(buffer@, byte, from as int) == Some(at as int),
            None => position(buffer@, byte, from as int) is None,
        },
{
    let mut at: usize = from;
    while at < buffer.len()
        invariant
            from <= at,
            position(buffer@, byte, from as int) == position(buffer@, byte, at as int),
        decreases buffer@.len() - at,
    {
        if buffer[at] == byte {
            return Some(at);
        }
        at = at + 1;
    }
    None
}

/// A line without the CR at its end, if it has one.
fn strip(line: &[u8]) -> (stripped: &[u8])
    ensures
        stripped@ == strip_cr(line@),
{
    let length: usize = line.len();
    if length > 0 && line[length - 1] == 13 {
        slice_subrange(line, 0, length - 1)
    } else {
        line
    }
}

/// `bytes` without the blanks at both ends.
fn trim_blanks(bytes: &[u8]) -> (trimmed: &[u8])
    ensures
        trimmed@ == trim(bytes@),
{
    let mut start: usize = 0;
    while start < bytes.len() && (bytes[start] == 32 || bytes[start] == 9)
        invariant
            start <= bytes@.len(),
            forall|i: int| 0 <= i < start ==> is_blank(#[trigger] bytes@[i]),
        decreases bytes@.len() - start,
    {
        start = start + 1;
    }
    let rest = slice_subrange(bytes, start, bytes.len());
    proof {
        lemma_trim_start(bytes@, start as int);
    }
    let mut end: usize = rest.len();
    while end > 0 && (rest[end - 1] == 32 || rest[end - 1] == 9)
        invariant
            end <= rest@.len(),
            forall|i: int| end <= i < rest@.len() ==> is_blank(#[trigger] rest@[i]),
        decreases end,
    {
        end = end - 1;
    }
    proof {
        lemma_trim_end(rest@, end as int);
    }
    slice_subrange(rest, 0, end)
}

/// The length that the value of a `Content-Length` header gives.
fn read_length(value: &[u8]) -> (length: Option<usize>)
    ensures
        length == parse_length(value@),
{
    if value.len() == 0 {
        return None;
    }
    let mut total: usize = 0;
    let mut i: usize = 0;
    while i < value.len()
        invariant
            i <= value@.len(),
            forall|k: int| 0 <= k < i ==> 48 <= #[trigger] value@[k] <= 57,
            total == digits_value(value@.subrange(0, i as int)),
        decreases value@.len() - i,
    {
        let byte = value[i];
        if byte < 48 || byte > 57 {
            return None;
        }
        let digit: usize = (byte - 48) as usize;
        proof {
            let longer = value@.subrange(0, i + 1);
            assert(longer.drop_last() =~= value@.subrange(0, i as int));
            assert(digits_value(longer) == total * 10 + digit);
        }
        let next = match total.checked_mul(10) {
            Some(tens) => tens.checked_add(digit),
            None => None,
        };
        match next {
            Some(next) => {
                total = next;
            },
            None => {
                proof {
                    if is_digits(value@) {
                        lemma_digits_prefix(value@, i + 1);
                    }
                }
                return None;
            },
        }
        i = i + 1;
    }
    proof {
        assert(value@.subrange(0, i as int) =~= value@);
    }
    Some(total)
}

/// What one header line says of the body's length.
fn read_line(line: &[u8]) -> (length: Result<Option<usize>, FramingError>)
    ensures
        length == line_length(line@),
{
    match find(line, 58, 0) {
        None => Err(FramingError::MalformedHeader),
        Some(colon) => {
            proof {
                lemma_position(line@, 58, 0);
                reveal_strlit("Content-Length");
            }
            if colon == 0 {
                return Err(FramingError::MalformedHeader);
            }
            let total: usize = line.len();
            let name = slice_subrange(line, 0, colon);
            if bytes_eq(name, ascii_bytes("Content-Length")) {
                let value = trim_blanks(slice_subrange(line, colon + 1, total));
                match read_length(value) {
                    Some(length) => Ok(Some(length)),
                    None => Err(FramingError::InvalidLength),
                }
            } else {
                Ok(None)
            }
        },
    }
}

/// What the header lines say.
fn read_headers(buffer: &[u8]) -> (headers: Result<Option<(usize, Option<usize>)>, FramingError>)
    ensures
        match headers {
            Ok(None) => scan_headers(buffer@, 0, None) == Headers::Incomplete,
            Ok(Some((start, length))) => {
                &&& 0 < start <= buffer@.len()
                &&& scan_headers(buffer@, 0, None) == (Headers::End { start: start as int, length })
            },
            Err(error) => scan_headers(buffer@, 0, None) == Headers::Invalid(error),
        },
{
    let total: usize = buffer.len();
    let mut from: usize = 0;
    let mut found: Option<usize> = None;
    loop
        invariant
            from <= total == buffer@.len(),
            scan_headers(buffer@, 0, None) == scan_headers(buffer@, from as int, found),
        decreases total - from,
    {
        let end = match find(buffer, 10, from) {
            Some(end) => end,
            None => {
                return Ok(None);
            },
        };
        proof {
            lemma_position(buffer@, 10, from as int);
        }
        let line = strip(slice_subrange(buffer, from, end));
        if line.len() == 0 {
            return Ok(Some((end + 1, found)));
        }
        match read_line(line) {
            Err(error) => {
                return Err(error);
            },
            Ok(Some(length)) => {
                found = Some(length);
            },
            Ok(None) => {},
        }
        from = end + 1;
    }
}

/// The codec that frames JSON texts on a byte stream.
#[derive(Clone, Copy, Debug, Default)]
pub struct LspCodec;

impl LspCodec {
    /// The bytes of the frame that carries `body`.
    pub fn encode(&self, body: &str) -> (bytes: Vec<u8>)
        ensures
            bytes@ == frame(body.spec_bytes()),
    {
        proof {
            reveal_strlit("Content-Length: ");
        }
        let payload = body.as_bytes();
        let mut bytes: Vec<u8> = Vec::new();
        bytes.extend_from_slice(ascii_bytes("Content-Length: "));
        write_decimal(payload.len(), &mut bytes);
        bytes.push(13);
        bytes.push(10);
        bytes.push(13);
        bytes.push(10);
        assert(bytes@ =~= header(payload@.len()));
        bytes.extend_from_slice(payload);
        bytes
    }

    /// Reads the first frame from the bytes received so far: `Ok(None)` while
    /// the frame is incomplete, else its body and the number of bytes that it
    /// takes up, or the reason why the bytes are no frame.
    pub fn decode<'a>(&self, buffer: &'a [u8]) -> (decoded: Result<
        Option<(&'a [u8], usize)>,
        FramingError,
    >)
        ensures
            decoded_view(decoded) == decode_frame(buffer@),
            frame_within(decode_frame(buffer@), buffer@),
    {
        let (start, length) = match read_headers(buffer) {
            Ok(Some((start, Some(length)))) => (start, length),
            Ok(Some((_, None))) => {
                return Err(FramingError::MissingContentLength);
            },
            Ok(None) => {
                return Ok(None);
            },
            Err(error) => {
                return Err(error);
            },
        };
        let total: usize = buffer.len();
        if total - start < length {
            return Ok(None);
        }
        Ok(Some((slice_subrange(buffer, start, start + length), start + length)))
    }

    /// Reads the first frame from what is left when the input has ended:
    /// `Ok(None)` where nothing is left, and an error where a frame was cut
    /// short.
    pub fn decode_eof<'a>(&self, buffer: &'a [u8]) -> (decoded: Result<
        Option<(&'a [u8], usize)>,
        FramingError,
    >)
        ensures
            decoded_view(decoded) == decode_last_frame(buffer@),
            frame_within(decode_last_frame(buffer@), buffer@),
    {
        match self.decode(buffer) {
            Ok(None) => if buffer.len() == 0 {
                Ok(None)
            } else {
                Err(FramingError::UnexpectedEof)
            },
            other => other,
        }
    }
}

/// Appends the decimal digits of `n`.
fn write_decimal(n: usize, bytes: &mut Vec<u8>)
    ensures
        final(bytes)@ == old(bytes)@ + decimal(n as nat),
    decreases n,
{
    if n >= 10 {
        write_decimal(n / 10, bytes);
    }
    bytes.push(48 + (n % 10) as u8);
    proof {
        assert(final(bytes)@ =~= old(bytes)@ + decimal(n as nat));
    }
}

} // verus!
