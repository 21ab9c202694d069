//! Reading and validating the proxy's reply.
//!
//! The reply is consumed line by line: each line the stream yields is fed to
//! a [`ResponseAccumulator`], which appends it and decides whether the header
//! block is complete, the stream closed too early, or the configured length
//! bound was crossed. The completed header block is then parsed and its
//! status line checked.

use crate::HttpError;
use crate::MAXIMUM_RESPONSE_HEADERS;
use crate::MAXIMUM_RESPONSE_HEADER_LENGTH;
use vstd::prelude::*;
use vstd::string::StringExecFns;

verus! {

/// The length in bytes of the UTF-8 encoding of `s`.
pub open spec fn byte_len(s: Seq<char>) -> nat {
    vstd::utf8::encode_utf8(s).len()
}

/// Whether `b` ends with the header terminator: the raw bytes
/// carriage-return, line-feed, carriage-return, line-feed.
pub open spec fn ends_crlfcrlf(b: Seq<u8>) -> bool {
    &&& b.len() >= 4
    &&& b[b.len() - 4] == 13u8
    &&& b[b.len() - 3] == 10u8
    &&& b[b.len() - 2] == 13u8
    &&& b[b.len() - 1] == 10u8
}

/// Whether the UTF-8 encoding of `s` ends with the header terminator.
pub open spec fn is_terminated(s: Seq<char>) -> bool {
    ends_crlfcrlf(vstd::utf8::encode_utf8(s))
}

/// The UTF-8 encoding of a concatenation is the concatenation of the
/// encodings.
pub proof fn lemma_encode_utf8_concat(a: Seq<char>, b: Seq<char>)
    ensures
        vstd::utf8::encode_utf8(a + b) == vstd::utf8::encode_utf8(a) + vstd::utf8::encode_utf8(b),
    decreases a.len(),
{
    if a.len() == 0 {
        assert(a + b =~= b);
        assert(vstd::utf8::encode_utf8(a) + vstd::utf8::encode_utf8(b) =~= vstd::utf8::encode_utf8(
            b,
        ));
    } else {
        assert((a + b).drop_first() =~= a.drop_first() + b);
        lemma_encode_utf8_concat(a.drop_first(), b);
        assert(vstd::utf8::encode_utf8(a + b) =~= vstd::utf8::encode_utf8(a)
            + vstd::utf8::encode_utf8(b));
    }
}

/// Whether the bytes of `bytes` end with the header terminator.
fn ends_with_terminator(bytes: &[u8]) -> (r: bool)
    ensures
        r == ends_crlfcrlf(bytes@),
{
    let n = bytes.len();
    if n < 4 {
        return false;
    }
    bytes[n - 4] == 13 && bytes[n - 3] == 10 && bytes[n - 2] == 13 && bytes[n - 1] == 10
}

/// Appends the contents of `src` to `dst`.
fn append_bytes(dst: &mut Vec<u8>, src: &[u8])
    ensures
        final(dst)@ == old(dst)@ + src@,
{
    let n = src.len();
    let mut i: usize = 0;
    proof {
        assert(dst@ =~= old(dst)@ + src@.take(0));
    }
    while i < n
        invariant
            i <= n,
            n == src@.len(),
            dst@ == old(dst)@ + src@.take(i as int),
        decreases n - i,
    {
        dst.push(src[i]);
        proof {
            assert(dst@ =~= old(dst)@ + src@.take(i + 1));
        }
        i = i + 1;
    }
    proof {
        assert(dst@ =~= old(dst)@ + src@);
    }
}

/// What one fed line means for the handshake.
#[derive(Clone, Copy, Debug, PartialEq, Eq, Structural)]
pub enum FeedOutcome {
    /// The header block is not complete yet: read another line.
    Continue,
    /// The header block just became complete.
    Complete,
    /// The stream closed (a line-read yielded zero bytes) before the header
    /// block was complete.
    EndOfFile,
    /// The accumulated text crossed `MAXIMUM_RESPONSE_HEADER_LENGTH`.
    TooLong,
}

/// The outcome the accumulator reports once `buffer` is the accumulated
/// text: the length bound is checked on every append, before the terminator.
pub open spec fn feed_outcome_spec(buffer: Seq<char>) -> FeedOutcome {
    if byte_len(buffer) > MAXIMUM_RESPONSE_HEADER_LENGTH {
        FeedOutcome::TooLong
    } else if is_terminated(buffer) {
        FeedOutcome::Complete
    } else {
        FeedOutcome::Continue
    }
}

/// The growable text a single handshake accumulates the proxy's reply into.
/// It is owned by one handshake and discarded after validation. The raw
/// bytes are kept alongside the text, so that the length bound and the
/// terminator are decided on exactly the bytes the stream delivered.
pub struct ResponseAccumulator {
    buffer: String,
    bytes: Vec<u8>,
}

impl View for ResponseAccumulator {
    type V = Seq<char>;

    closed spec fn view(&self) -> Seq<char> {
        self.buffer@
    }
}

impl ResponseAccumulator {
    /// The bytes kept alongside the text are exactly the text's UTF-8
    /// encoding. Established by `new` and preserved by `feed_line`.
    pub closed spec fn wf(&self) -> bool {
        self.bytes@ == vstd::utf8::encode_utf8(self.buffer@)
    }

    /// An empty accumulator for one handshake.
    pub fn new() -> (r: ResponseAccumulator)
        ensures
            r@ == Seq::<char>::empty(),
            r.wf(),
    {
        let buffer = String::new();
        let bytes: Vec<u8> = Vec::new();
        proof {
            assert(bytes@ =~= vstd::utf8::encode_utf8(buffer@));
        }
        ResponseAccumulator { buffer, bytes }
    }

    /// Feeds one line the stream yielded. An empty line means the stream
    /// closed. Any other line is appended; the length bound is checked on
    /// this very append, and only then the terminator.
    pub fn feed_line(&mut self, line: &str) -> (r: FeedOutcome)
        requires
            old(self).wf(),
        ensures
            final(self).wf(),
            line@.len() == 0 ==> r == FeedOutcome::EndOfFile && final(self)@ == old(self)@,
            line@.len() > 0 ==> final(self)@ == old(self)@ + line@ && r == feed_outcome_spec(
                old(self)@ + line@,
            ),
    {
        if line.is_empty() {
            return FeedOutcome::EndOfFile;
        }
        let line_bytes = line.as_bytes();
        self.buffer.append(line);
        append_bytes(&mut self.bytes, line_bytes);
        proof {
            lemma_encode_utf8_concat(old(self).buffer@, line@);
        }
        if MAXIMUM_RESPONSE_HEADER_LENGTH < self.bytes.len() {
            FeedOutcome::TooLong
        } else if ends_with_terminator(self.bytes.as_slice()) {
            FeedOutcome::Complete
        } else {
            FeedOutcome::Continue
        }
    }

    /// Hands the accumulated text out: the complete header block after
    /// `Complete`, or the partial content for diagnostics after `TooLong`.
    pub fn into_response(self) -> (r: String)
        ensures
            r@ == self@,
    {
        self.buffer
    }
}

/// How reading the reply ends, in the model where the stream's line-reads
/// are given as a sequence: each element is what one line-read yielded, and
/// an empty element is a read of zero bytes, that is, a closed stream.
pub enum ReadOutcome {
    /// The accumulated text, terminator included, once it ends with the
    /// header terminator.
    Complete(Seq<char>),
    /// The stream closed (or ran out) before the terminator was seen.
    ClosedEarly,
    /// The accumulated text crossed the length bound before the terminator
    /// was seen; carries the text accumulated up to and including the
    /// crossing line.
    OverLength(Seq<char>),
}

/// The outcome of feeding `lines` one by one into an accumulator that
/// already holds `acc`: the very loop the handshake runs, with the length
/// bound checked after every single append.
pub open spec fn read_outcome_spec(acc: Seq<char>, lines: Seq<Seq<char>>) -> ReadOutcome
    decreases lines.len(),
{
    if lines.len() == 0 {
        ReadOutcome::ClosedEarly
    } else {
        let line = lines[0];
        if line.len() == 0 {
            ReadOutcome::ClosedEarly
        } else {
            let acc2 = acc + line;
            if byte_len(acc2) > MAXIMUM_RESPONSE_HEADER_LENGTH {
                ReadOutcome::OverLength(acc2)
            } else if is_terminated(acc2) {
                ReadOutcome::Complete(acc2)
            } else {
                read_outcome_spec(acc2, lines.drop_first())
            }
        }
    }
}

/// Accumulates a pre-read sequence of line-reads exactly as the handshake's
/// read loop does, and returns the complete header block, or the error the
/// loop ends with: `EndOfFile` when the stream closes (or `lines` runs out)
/// first, `MaximumResponseHeaderLengthExceeded` when the bound is crossed
/// first.
pub fn read_response_lines(lines: &Vec<String>) -> (r: Result<String, HttpError>)
    ensures
        match read_outcome_spec(Seq::<char>::empty(), lines.deep_view()) {
            ReadOutcome::Complete(text) => r matches Ok(s) && s@ == text,
            ReadOutcome::ClosedEarly => r matches Err(HttpError::EndOfFile),
            ReadOutcome::OverLength(text) => r matches Err(
                HttpError::MaximumResponseHeaderLengthExceeded(s),
            ) && s@ == text,
        },
{
    let mut acc = ResponseAccumulator::new();
    let n = lines.len();
    let mut i: usize = 0;
    proof {
        assert(lines.deep_view().skip(0) =~= lines.deep_view());
    }
    while i < n
        invariant
            i <= n,
            n == lines@.len(),
            acc.wf(),
            read_outcome_spec(Seq::<char>::empty(), lines.deep_view()) == read_outcome_spec(
                acc@,
                lines.deep_view().skip(i as int),
            ),
        decreases n - i,
    {
        proof {
            assert(lines.deep_view()[i as int] == lines@[i as int]@);
            assert(lines.deep_view().skip(i as int)[0] == lines.deep_view()[i as int]);
            assert(lines.deep_view().skip(i as int).drop_first() =~= lines.deep_view().skip(
                i as int + 1,
            ));
        }
        let outcome = acc.feed_line(lines[i].as_str());
        match outcome {
            FeedOutcome::Continue => {
                i = i + 1;
            },
            FeedOutcome::Complete => {
                return Ok(acc.into_response());
            },
            FeedOutcome::EndOfFile => {
                return Err(HttpError::EndOfFile);
            },
            FeedOutcome::TooLong => {
                return Err(HttpError::MaximumResponseHeaderLengthExceeded(acc.into_response()));
            },
        }
    }
    proof {
        assert(lines.deep_view().skip(n as int) =~= Seq::<Seq<char>>::empty());
    }
    Err(HttpError::EndOfFile)
}

/// The concatenation of the first `k` elements of `lines`.
pub open spec fn joined_prefix(lines: Seq<Seq<char>>, k: int) -> Seq<char>
    decreases k,
{
    if k <= 0 {
        Seq::empty()
    } else {
        joined_prefix(lines, k - 1) + lines[k - 1]
    }
}

proof fn lemma_closed_early_rec(lines: Seq<Seq<char>>, j: int)
    requires
        0 <= j <= lines.len(),
        forall|k: int|
            j < k <= lines.len() ==> byte_len(#[trigger] joined_prefix(lines, k))
                <= MAXIMUM_RESPONSE_HEADER_LENGTH && !is_terminated(joined_prefix(lines, k)),
    ensures
        read_outcome_spec(joined_prefix(lines, j), lines.skip(j)) == ReadOutcome::ClosedEarly,
    decreases lines.len() - j,
{
    if j == lines.len() {
        assert(lines.skip(j) =~= Seq::<Seq<char>>::empty());
    } else {
        assert(lines.skip(j)[0] == lines[j]);
        if lines[j].len() == 0 {
        } else {
            assert(joined_prefix(lines, j + 1) == joined_prefix(lines, j) + lines[j]);
            lemma_closed_early_rec(lines, j + 1);
            assert(lines.skip(j).drop_first() =~= lines.skip(j + 1));
        }
    }
}

/// Law: a stream that delivers lines whose accumulation never reaches the
/// header terminator and never crosses the length bound, and then closes or
/// runs out, ends the read with `EndOfFile`.
pub proof fn lemma_closed_early_yields_end_of_file(lines: Seq<Seq<char>>)
    requires
        forall|k: int|
            1 <= k <= lines.len() ==> byte_len(#[trigger] joined_prefix(lines, k))
                <= MAXIMUM_RESPONSE_HEADER_LENGTH && !is_terminated(joined_prefix(lines, k)),
    ensures
        read_outcome_spec(Seq::<char>::empty(), lines) == ReadOutcome::ClosedEarly,
{
    lemma_closed_early_rec(lines, 0);
    assert(lines.skip(0) =~= lines);
}

proof fn lemma_over_length_rec(lines: Seq<Seq<char>>, j: int, t: int)
    requires
        0 <= j <= t < lines.len(),
        forall|k: int| 0 <= k <= t ==> (#[trigger] lines[k]).len() > 0,
        forall|k: int|
            j < k <= t ==> byte_len(#[trigger] joined_prefix(lines, k))
                <= MAXIMUM_RESPONSE_HEADER_LENGTH && !is_terminated(joined_prefix(lines, k)),
        byte_len(joined_prefix(lines, t + 1)) > MAXIMUM_RESPONSE_HEADER_LENGTH,
    ensures
        read_outcome_spec(joined_prefix(lines, j), lines.skip(j)) == ReadOutcome::OverLength(
            joined_prefix(lines, t + 1),
        ),
    decreases t - j,
{
    assert(lines.skip(j)[0] == lines[j]);
    assert(joined_prefix(lines, j + 1) == joined_prefix(lines, j) + lines[j]);
    if j == t {
    } else {
        lemma_over_length_rec(lines, j + 1, t);
        assert(lines.skip(j).drop_first() =~= lines.skip(j + 1));
    }
}

/// Law: a stream whose accumulated text crosses the length bound on the line
/// numbered `t` (counting from zero), before any earlier accumulation reached
/// the terminator or the bound, ends the read with the length error carrying
/// everything accumulated up to and including that line.
pub proof fn lemma_bound_crossing_yields_length_error(lines: Seq<Seq<char>>, t: int)
    requires
        0 <= t < lines.len(),
        forall|k: int| 0 <= k <= t ==> (#[trigger] lines[k]).len() > 0,
        forall|k: int|
            1 <= k <= t ==> byte_len(#[trigger] joined_prefix(lines, k))
                <= MAXIMUM_RESPONSE_HEADER_LENGTH && !is_terminated(joined_prefix(lines, k)),
        byte_len(joined_prefix(lines, t + 1)) > MAXIMUM_RESPONSE_HEADER_LENGTH,
    ensures
        read_outcome_spec(Seq::<char>::empty(), lines) == ReadOutcome::OverLength(
            joined_prefix(lines, t + 1),
        ),
{
    lemma_over_length_rec(lines, 0, t);
    assert(lines.skip(0) =~= lines);
}

proof fn lemma_complete_rec(lines: Seq<Seq<char>>, j: int, t: int)
    requires
        0 <= j <= t < lines.len(),
        forall|k: int| 0 <= k <= t ==> (#[trigger] lines[k]).len() > 0,
        forall|k: int|
            j < k <= t ==> byte_len(#[trigger] joined_prefix(lines, k))
                <= MAXIMUM_RESPONSE_HEADER_LENGTH && !is_terminated(joined_prefix(lines, k)),
        byte_len(joined_prefix(lines, t + 1)) <= MAXIMUM_RESPONSE_HEADER_LENGTH,
        is_terminated(joined_prefix(lines, t + 1)),
    ensures
        read_outcome_spec(joined_prefix(lines, j), lines.skip(j)) == ReadOutcome::Complete(
            joined_prefix(lines, t + 1),
        ),
    decreases t - j,
{
    assert(lines.skip(j)[0] == lines[j]);
    assert(joined_prefix(lines, j + 1) == joined_prefix(lines, j) + lines[j]);
    if j == t {
    } else {
        lemma_complete_rec(lines, j + 1, t);
        assert(lines.skip(j).drop_first() =~= lines.skip(j + 1));
    }
}

/// Law: a stream whose accumulated text first ends with the header
/// terminator on the line numbered `t` (counting from zero), within the
/// length bound, ends the read with exactly the text accumulated up to and
/// including that line — whatever bytes the stream would deliver later are
/// never consumed.
pub proof fn lemma_terminator_yields_complete(lines: Seq<Seq<char>>, t: int)
    requires
        0 <= t < lines.len(),
        forall|k: int| 0 <= k <= t ==> (#[trigger] lines[k]).len() > 0,
        forall|k: int|
            1 <= k <= t ==> byte_len(#[trigger] joined_prefix(lines, k))
                <= MAXIMUM_RESPONSE_HEADER_LENGTH && !is_terminated(joined_prefix(lines, k)),
        byte_len(joined_prefix(lines, t + 1)) <= MAXIMUM_RESPONSE_HEADER_LENGTH,
        is_terminated(joined_prefix(lines, t + 1)),
    ensures
        read_outcome_spec(Seq::<char>::empty(), lines) == ReadOutcome::Complete(
            joined_prefix(lines, t + 1),
        ),
{
    lemma_complete_rec(lines, 0, t);
    assert(lines.skip(0) =~= lines);
}

/// The transient view of the reply's status line that the validator checks:
/// the numeric code and the reason phrase, either possibly missing.
pub struct ParsedStatusLine {
    pub code: Option<u16>,
    pub reason: Option<String>,
}

/// What parsing the header block `text` yields: `None` when the parser
/// rejects it as malformed (or with too many headers), otherwise the status
/// code and reason phrase, either possibly missing when the text stops short
/// of it.
pub uninterp spec fn http_status_of(text: Seq<char>) -> Option<(Option<u16>, Option<Seq<char>>)>;

/// Whether the parsed status line `actual` carries exactly the code and
/// reason that the parse model `model` names.
pub open spec fn status_matches(
    actual: ParsedStatusLine,
    model: (Option<u16>, Option<Seq<char>>),
) -> bool {
    &&& actual.code == model.0
    &&& match (actual.reason, model.1) {
        (Some(a), Some(m)) => a@ == m,
        (None, None) => true,
        _ => false,
    }
}

/// Relies on httparse's `Response::parse`, called with a table of
/// `MAXIMUM_RESPONSE_HEADERS` headers: its outcome is a pure function of the
/// input bytes (the table size being this fixed constant). On acceptance it
/// leaves the status code and reason phrase it reached, either still absent
/// when the input stops short of it; on malformed input, or when the headers
/// outnumber the table, it returns its error.
#[verifier::external_body]
fn parse_status_line(response: &str) -> (r: Result<ParsedStatusLine, httparse::Error>)
    ensures
        match http_status_of(response@) {
            Some(model) => r matches Ok(p) && status_matches(p, model),
            None => r is Err,
        },
{
    let mut headers = [httparse::EMPTY_HEADER; MAXIMUM_RESPONSE_HEADERS];
    let mut parsed = httparse::Response::new(&mut headers);
    match parsed.parse(response.as_bytes()) {
        Ok(_) => Ok(ParsedStatusLine { code: parsed.code, reason: parsed.reason.map(|r| r.to_owned()) }),
        Err(e) => Err(e),
    }
}

/// Accepts exactly the status code 200. Checked before the reason phrase.
pub fn check_code(status: &ParsedStatusLine) -> (r: Result<(), HttpError>)
    ensures
        match status.code {
            None => r matches Err(HttpError::NoHttpCode),
            Some(code) => if code == 200 {
                r is Ok
            } else {
                r matches Err(HttpError::HttpCode200(c)) && c == code
            },
        },
{
    match status.code {
        Some(code) => {
            if code == 200 {
                Ok(())
            } else {
                Err(HttpError::HttpCode200(code))
            }
        },
        None => Err(HttpError::NoHttpCode),
    }
}

/// Accepts exactly the reason phrase `Connection Established`.
pub fn check_reason(status: &ParsedStatusLine) -> (r: Result<(), HttpError>)
    ensures
        match status.reason {
            None => r matches Err(HttpError::NoHttpReason),
            Some(reason) => if reason@ == "Connection Established"@ {
                r is Ok
            } else {
                r matches Err(HttpError::HttpReasonConnectionEstablished(s)) && s == reason
            },
        },
{
    match &status.reason {
        Some(reason) => {
            let expected = String::from_str("Connection Established");
            if *reason == expected {
                Ok(())
            } else {
                Err(HttpError::HttpReasonConnectionEstablished(reason.clone()))
            }
        },
        None => Err(HttpError::NoHttpReason),
    }
}

/// The decision the validator owes once parsing `text` yields
/// `http_status_of(text)`: the code is checked before the reason, each
/// against its one accepted value, and a code failure short-circuits.
pub open spec fn validated(
    model: Option<(Option<u16>, Option<Seq<char>>)>,
    r: Result<(), HttpError>,
) -> bool {
    match model {
        None => r matches Err(HttpError::HttpParseError(_)),
        Some((code, reason)) => match code {
            None => r matches Err(HttpError::NoHttpCode),
            Some(c) => if c != 200 {
                r matches Err(HttpError::HttpCode200(a)) && a == c
            } else {
                match reason {
                    None => r matches Err(HttpError::NoHttpReason),
                    Some(rs) => if rs == "Connection Established"@ {
                        r is Ok
                    } else {
                        r matches Err(HttpError::HttpReasonConnectionEstablished(s)) && s@ == rs
                    },
                }
            },
        },
    }
}

/// Parses the accumulated header block and accepts it exactly when the
/// status line carries code 200 and reason `Connection Established`.
pub fn parse_and_check(response_string: &str) -> (r: Result<(), HttpError>)
    ensures
        validated(http_status_of(response_string@), r),
{
    let status = match parse_status_line(response_string) {
        Ok(s) => s,
        Err(e) => {
            return Err(HttpError::HttpParseError(e));
        },
    };
    match check_code(&status) {
        Ok(u) => u,
        Err(e) => {
            return Err(e);
        },
    };
    match check_reason(&status) {
        Ok(u) => u,
        Err(e) => {
            return Err(e);
        },
    };
    Ok(())
}

/// Runs the whole receive side on a pre-read sequence of line-reads: the
/// read loop, then the validator on the complete header block.
pub fn check_response_lines(lines: &Vec<String>) -> (r: Result<(), HttpError>)
    ensures
        match read_outcome_spec(Seq::<char>::empty(), lines.deep_view()) {
            ReadOutcome::Complete(text) => validated(http_status_of(text), r),
            ReadOutcome::ClosedEarly => r matches Err(HttpError::EndOfFile),
            ReadOutcome::OverLength(text) => r matches Err(
                HttpError::MaximumResponseHeaderLengthExceeded(s),
            ) && s@ == text,
        },
{
    let response_string = match read_response_lines(lines) {
        Ok(s) => s,
        Err(e) => {
            return Err(e);
        },
    };
    parse_and_check(response_string.as_str())
}

} // verus!

