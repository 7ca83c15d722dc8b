//! Decisions of the worker and display loops: how a response is counted,
//! when a worker takes a snapshot and reports that it is done, and when
//! the display loop stops.

use vstd::prelude::*;

verus! {

/// Outcome of one benchmark request as the metrics count it.
#[derive(Debug, Copy, Clone, PartialEq, Eq, Structural)]
pub enum ResponseOutcome {
    Success,
    Failure,
}

/// HTTP status codes 500 to 599.
pub open spec fn is_server_error(code: u16) -> bool {
    500 <= code && code < 600
}

/// The server errors are exactly the status codes of class 5xx: those
/// whose hundreds digit is 5.
pub proof fn lemma_server_errors_are_class_5xx(code: u16)
    ensures
        is_server_error(code) <==> code / 100 == 5,
{
}

/// Classifies a request by the status code of its response, `None` when the
/// request failed before a response came: transport errors and server
/// errors (5xx) are failures, every other response is a success.
pub fn classify_response(status: Option<u16>) -> (r: ResponseOutcome)
    ensures
        r == ResponseOutcome::Success <==> (status matches Some(code) && !is_server_error(code)),
        status matches Some(code) && code / 100 == 5 ==> r == ResponseOutcome::Failure,
        status matches Some(code) && code / 100 != 5 ==> r == ResponseOutcome::Success,
{
    match status {
        Some(code) => {
            if 500 <= code && code < 600 {
                ResponseOutcome::Failure
            } else {
                ResponseOutcome::Success
            }
        },
        None => ResponseOutcome::Failure,
    }
}

/// What a worker does after counting one response.
#[derive(Debug, Copy, Clone, PartialEq, Eq, Structural)]
pub struct ResponseStep {
    /// Close the metrics window and publish the metrics.
    pub snapshot: bool,
    /// This was the last request of the worker: report it done.
    pub done: bool,
}

/// Progress of one worker thread through its requests.
#[derive(Debug, Copy, Clone)]
pub struct WorkerProgress {
    requests: Option<u64>,
    requests_sent: u64,
}

/// Whether a worker with the given request limit is done once `sent`
/// requests have been answered.
pub open spec fn done_after(requests: Option<u64>, sent: nat) -> bool {
    requests == Some(sent as u64) && sent <= u64::MAX
}

impl WorkerProgress {
    /// The requests that the worker sends, `None` for no limit.
    pub closed spec fn limit(self) -> Option<u64> {
        self.requests
    }

    /// Responses counted so far.
    pub closed spec fn sent(self) -> nat {
        self.requests_sent as nat
    }

    /// A worker that has counted no response yet.
    pub fn new(requests: Option<u64>) -> (r: Self)
        ensures
            r.limit() == requests,
            r.sent() == 0,
    {
        WorkerProgress { requests, requests_sent: 0 }
    }

    /// Responses counted so far.
    pub fn requests_sent(&self) -> (r: u64)
        ensures
            r == self.sent(),
    {
        self.requests_sent
    }

    /// Counts one response. `since_snapshot_nanos` is the time since the
    /// last snapshot and `interval_nanos` the metrics interval: a snapshot
    /// is due when the interval is exceeded or when this was the worker's
    /// last request.
    pub fn on_response(&mut self, since_snapshot_nanos: u128, interval_nanos: u128) -> (r:
        ResponseStep)
        requires
            old(self).sent() < u64::MAX,
        ensures
            final(self).limit() == old(self).limit(),
            final(self).sent() == old(self).sent() + 1,
            r.done == done_after(final(self).limit(), final(self).sent()),
            r.snapshot == (since_snapshot_nanos > interval_nanos || r.done),
    {
        self.requests_sent = self.requests_sent + 1;
        let done = match self.requests {
            Some(limit) => limit == self.requests_sent,
            None => false,
        };
        ResponseStep { snapshot: since_snapshot_nanos > interval_nanos || done, done }
    }
}

/// A worker reports that it is done at one response at most: the counts of
/// two responses at which it is done are equal.
pub proof fn lemma_done_once(requests: Option<u64>, first: nat, second: nat)
    requires
        done_after(requests, first),
        done_after(requests, second),
    ensures
        first == second,
{
}

/// A worker with a limit of `n` requests, `n > 0`, is done at its `n`-th
/// response.
pub proof fn lemma_done_at_limit(n: u64)
    requires
        n > 0,
    ensures
        done_after(Some(n), n as nat),
        forall|k: nat| k < n ==> !done_after(Some(n), k),
{
}

/// A worker without a limit is never done.
pub proof fn lemma_unlimited_never_done(sent: nat)
    ensures
        !done_after(None, sent),
{
}

/// What the display loop does after showing a snapshot.
#[derive(Debug, Copy, Clone, PartialEq, Eq, Structural)]
pub enum DisplayStep {
    /// Wait for the display interval, then show the next snapshot.
    Sleep,
    /// All workers are done: show one final snapshot and stop.
    Finish,
}

/// The display loop, which numbers the snapshots it shows.
#[derive(Debug, Copy, Clone)]
pub struct DisplayLoop {
    snapshot: u64,
}

impl DisplayLoop {
    /// Snapshots shown so far.
    pub closed spec fn shown(self) -> nat {
        self.snapshot as nat
    }

    /// A display loop that has shown nothing.
    pub fn new() -> (r: Self)
        ensures
            r.shown() == 0,
    {
        DisplayLoop { snapshot: 0 }
    }

    /// Snapshots shown so far.
    pub fn snapshots_shown(&self) -> (r: u64)
        ensures
            r == self.shown(),
    {
        self.snapshot
    }

    /// Starts the next snapshot and returns its number: snapshots are
    /// numbered 1, 2, 3, ...
    pub fn next_snapshot(&mut self) -> (r: u64)
        requires
            old(self).shown() < u64::MAX,
        ensures
            final(self).shown() == old(self).shown() + 1,
            r == final(self).shown(),
    {
        self.snapshot = self.snapshot + 1;
        self.snapshot
    }

    /// Decides, after a snapshot was shown, whether the loop goes on: it
    /// finishes once every worker thread has reported that it is done.
    pub fn after_snapshot(&self, done_workers: usize, n_threads: usize) -> (r: DisplayStep)
        ensures
            r == DisplayStep::Finish <==> done_workers == n_threads,
    {
        if done_workers == n_threads {
            DisplayStep::Finish
        } else {
            DisplayStep::Sleep
        }
    }
}

/// How far the JSON parser's decimal exponent, an `i16` that starts at 0,
/// can go down while it reads the fraction of a number: to -32768.
pub const EXPONENT_STEPS_LIMIT: u32 = 32768;

/// Below this mantissa the JSON parser takes every further fraction digit
/// without checking for overflow.
pub const MANTISSA_CAP: u64 = 576460752303423500;

/// ASCII decimal digits.
pub open spec fn is_ascii_digit(c: char) -> bool {
    '0' <= c && c <= '9'
}

/// The value of an ASCII decimal digit.
pub open spec fn digit_value(c: char) -> nat {
    ((c as int) - ('0' as int)) as nat
}

/// The mantissa after the JSON parser reads one more fraction digit `d`,
/// when it takes the digit (and counts it in the exponent): always below
/// `MANTISSA_CAP`, otherwise when the new mantissa fits in `u64`.
pub open spec fn fraction_step(num: nat, d: nat) -> Option<nat> {
    if num < MANTISSA_CAP || num * 10 + d <= u64::MAX {
        Some(num * 10 + d)
    } else {
        None
    }
}

/// What a reader of JSON text knows after a prefix of it: whether it is
/// inside a string (and right after a backslash there), the last character,
/// whether the prefix ends in a `0` that starts a number (the integer part
/// `0`), and, inside the fraction of a number whose integer part is `0`, the
/// mantissa read so far and how many digits lowered the exponent.
pub struct TextScan {
    pub in_string: bool,
    pub escaped: bool,
    pub last: Option<char>,
    pub lone_zero: bool,
    pub fraction: Option<(nat, nat)>,
}

/// Whether a `0` after this character cannot start a number: after a
/// digit, a `.` or an exponent mark it continues the previous token.
pub open spec fn continues_number(last: Option<char>) -> bool {
    last matches Some(p) && (is_ascii_digit(p) || p == '.' || p == 'e' || p == 'E')
}

/// The state after reading one more character.
pub open spec fn scan_step(st: TextScan, c: char) -> TextScan {
    if st.in_string {
        TextScan {
            in_string: st.escaped || c != '"',
            escaped: !st.escaped && c == '\\',
            last: Some(c),
            lone_zero: false,
            fraction: None,
        }
    } else {
        TextScan {
            in_string: c == '"',
            escaped: false,
            last: Some(c),
            lone_zero: c == '0' && !continues_number(st.last),
            fraction: if is_ascii_digit(c) && st.fraction is Some {
                let (num, steps) = st.fraction->0;
                match fraction_step(num, digit_value(c)) {
                    Some(next) => Some((next, steps + 1)),
                    None => Some((num, steps)),
                }
            } else if c == '.' && st.lone_zero {
                Some((0, 0))
            } else {
                None
            },
        }
    }
}

/// The state after reading `text`.
pub open spec fn scan(text: Seq<char>) -> TextScan
    decreases text.len(),
{
    if text.len() == 0 {
        TextScan { in_string: false, escaped: false, last: None, lone_zero: false, fraction: None }
    } else {
        scan_step(scan(text.drop_last()), text.last())
    }
}

/// The JSON parser reads `text` without its exponent leaving the `i16`
/// range: in no number with integer part `0` does the fraction lower the
/// exponent more than `EXPONENT_STEPS_LIMIT` times. (A number with another
/// integer part has a mantissa of at least 1, which stops the exponent after
/// at most twenty fraction digits.)
pub open spec fn exponent_in_range(text: Seq<char>) -> bool {
    forall|k: int|
        0 <= k <= text.len() ==> match (#[trigger] scan(text.take(k))).fraction {
            Some((_, steps)) => steps <= EXPONENT_STEPS_LIMIT,
            None => true,
        }
}

/// Tells whether the JSON parser reads `text` without its exponent leaving
/// the `i16` range.
pub fn exponent_stays_in_range(text: &str) -> (r: bool)
    ensures
        r == exponent_in_range(text@),
{
    let mut in_string = false;
    let mut escaped = false;
    let mut last: Option<char> = None;
    let mut lone_zero = false;
    let mut fraction: Option<(u64, u32)> = None;
    for c in it: text.chars()
        invariant
            it.seq() == text@,
            0 <= it.index() <= text@.len(),
            ({
                let st = scan(text@.take(it.index()));
                &&& st.in_string == in_string
                &&& st.escaped == escaped
                &&& st.last == last
                &&& st.lone_zero == lone_zero
                &&& match st.fraction {
                    Some((num, steps)) => fraction matches Some((n, k)) && n == num && k == steps
                        && steps <= EXPONENT_STEPS_LIMIT,
                    None => fraction is None,
                }
            }),
            forall|k: int|
                0 <= k <= it.index() ==> match (#[trigger] scan(text@.take(k))).fraction {
                    Some((_, steps)) => steps <= EXPONENT_STEPS_LIMIT,
                    None => true,
                },
    {
        let ghost i = it.index();
        assert(text@.take(i + 1).drop_last() =~= text@.take(i));
        assert(text@.take(i + 1).last() == c);
        if in_string {
            in_string = escaped || c != '"';
            escaped = !escaped && c == '\\';
            lone_zero = false;
            fraction = None;
        } else {
            let digit = '0' <= c && c <= '9';
            let continues = match last {
                Some(p) => ('0' <= p && p <= '9') || p == '.' || p == 'e' || p == 'E',
                None => false,
            };
            fraction = match fraction {
                Some((num, steps)) if digit => {
                    let d = (c as u32 - '0' as u32) as u64;
                    let next = if num < MANTISSA_CAP {
                        Some(num * 10 + d)
                    } else {
                        match num.checked_mul(10) {
                            Some(m) => m.checked_add(d),
                            None => None,
                        }
                    };
                    match next {
                        Some(n) => Some((n, steps + 1)),
                        None => Some((num, steps)),
                    }
                },
                _ => {
                    if c == '.' && lone_zero {
                        Some((0, 0))
                    } else {
                        None
                    }
                },
            };
            lone_zero = c == '0' && !continues;
            in_string = c == '"';
            escaped = false;
        }
        last = Some(c);
        if let Some((_, steps)) = fraction {
            if steps > EXPONENT_STEPS_LIMIT {
                assert((scan(text@.take(i + 1)).fraction->0).1 == steps);
                return false;
            }
        }
    }
    assert(text@.take(text@.len() as int) =~= text@);
    true
}

#[verifier::external_type_specification]
#[verifier::external_body]
pub struct ExJsonValue(json::JsonValue);

/// What `json::parse` gives for a text: the document, or `None` when the
/// text is not JSON.
pub uninterp spec fn json_parsed(text: Seq<char>) -> Option<json::JsonValue>;

/// Calls `json::parse` of the `json` crate and keeps its result when it is
/// `Ok`. Claimed: the result is a function of the text alone, named
/// `json_parsed`. The parser counts the fraction digits of a number in an
/// `i16` exponent, which overflows (and panics where overflow is checked)
/// on the texts that `exponent_in_range` leaves out; `requires` leaves them
/// out.
#[verifier::external_body]
fn json_parse(text: &str) -> (r: Option<json::JsonValue>)
    requires
        exponent_in_range(text@),
    ensures
        r == json_parsed(text@),
{
    json::parse(text).ok()
}

/// The unsigned integer that the JSON document `text` holds at
/// `document[object][key]`, when `text` parses and that member is a number
/// that `as_u64` reads.
pub uninterp spec fn json_u64_at(text: Seq<char>, object: Seq<char>, key: Seq<char>) -> Option<
    u64,
>;

/// Parses `text` with `json::parse` of the `json` crate, looks up
/// `document[object][key]` with the crate's `Index<&str>` (a missing member
/// or a non-object gives `Null`), and reads that value with `as_u64`, which
/// gives `Some` for a number that the parser holds with a positive sign and
/// exponent 0 (so `1e0` gives 1, while `-0` and `1.5` give none). Claimed:
/// the result is a function of the three texts alone, named `json_u64_at`.
/// As for `json_parse`, `requires` leaves out texts on which the parser
/// overflows.
#[verifier::external_body]
pub(crate) fn json_get_u64(text: &str, object: &str, key: &str) -> (r: Option<u64>)
    requires
        exponent_in_range(text@),
    ensures
        r == json_u64_at(text@, object@, key@),
{
    json::parse(text).ok().and_then(|doc| doc[object][key].as_u64())
}

/// Calls `std::str::from_utf8` and keeps its result when it is `Ok`.
/// Claimed, as its documentation says: it succeeds exactly on valid UTF-8,
/// and then the text is the decoded bytes.
#[verifier::external_body]
fn str_from_utf8(bytes: &[u8]) -> (r: Option<&str>)
    ensures
        r is Some <==> vstd::utf8::valid_utf8(bytes@),
        r matches Some(s) ==> s@ == vstd::utf8::decode_utf8(bytes@),
{
    std::str::from_utf8(bytes).ok()
}

/// The body of a response, read as a JSON document.
pub enum ResponseBody<'a> {
    /// The body is a JSON document: its text and the parsed document.
    Json(&'a str, json::JsonValue),
    /// No body could be read, or it is not UTF-8, or it is not JSON.
    NotJson,
    /// The body is UTF-8, but a number in it has a fraction on which the
    /// JSON parser's exponent would overflow; it is not parsed.
    FractionTooLong,
}

/// Whether `bytes` are UTF-8 that the JSON parser reads without overflow.
pub open spec fn readable_text(bytes: Seq<u8>) -> bool {
    vstd::utf8::valid_utf8(bytes) && exponent_in_range(vstd::utf8::decode_utf8(bytes))
}

/// Reads the body of a response as a JSON document: `NotJson` when no body
/// could be read, when it is not UTF-8, or when it is not JSON;
/// `FractionTooLong` when the parser would overflow on its text.
pub fn decode_response_body<'a>(body: Option<&'a [u8]>) -> (r: ResponseBody<'a>)
    ensures
        r matches ResponseBody::Json(text, doc) ==> body matches Some(b) && readable_text(b@)
            && text@ == vstd::utf8::decode_utf8(b@) && json_parsed(text@) == Some(doc),
        r is FractionTooLong <==> (body matches Some(b) && vstd::utf8::valid_utf8(b@)
            && !exponent_in_range(vstd::utf8::decode_utf8(b@))),
        r is NotJson <==> (body is None || (body matches Some(b) && (!vstd::utf8::valid_utf8(b@)
            || (readable_text(b@) && json_parsed(vstd::utf8::decode_utf8(b@)) is None)))),
{
    match body {
        None => ResponseBody::NotJson,
        Some(bytes) => match str_from_utf8(bytes) {
            None => ResponseBody::NotJson,
            Some(text) => {
                if !exponent_stays_in_range(text) {
                    ResponseBody::FractionTooLong
                } else {
                    match json_parse(text) {
                        Some(doc) => ResponseBody::Json(text, doc),
                        None => ResponseBody::NotJson,
                    }
                }
            },
        },
    }
}

} // verus!
