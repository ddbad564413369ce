//! The dispatcher of one chunk: a bounded retry state machine.
//!
//! The caller performs each [`Action`] (sends the request, sleeps, decodes the
//! reply) and feeds back what happened as an [`Event`].
use vstd::arithmetic::power2::pow2;
use vstd::prelude::*;

verus! {

/// How many times a failed request is retried after the first try.
pub const MAX_RETRIES: u32 = 5;

/// The wait before the first retry, in milliseconds; it doubles each time.
pub const BASE_DELAY_MS: u64 = 500;

/// Whitespace as JSON has it: space, tab, line feed, carriage return.
pub open spec fn is_json_ws(c: char) -> bool {
    c == ' ' || c == '\t' || c == '\n' || c == '\r'
}

/// The first position at or after `k` that does not hold JSON whitespace,
/// or `s.len()`.
pub open spec fn skip_ws(s: Seq<char>, k: int) -> int
    decreases s.len() - k,
{
    if k < 0 || k >= s.len() {
        s.len() as int
    } else if is_json_ws(s[k]) {
        skip_ws(s, k + 1)
    } else {
        k
    }
}

/// The reply of an endpoint that has nothing to clean in a chunk: an empty
/// JSON object, `{` and `}` with nothing but whitespace around and between.
pub open spec fn is_empty_object_spec(s: Seq<char>) -> bool {
    let a = skip_ws(s, 0);
    let b = skip_ws(s, a + 1);
    &&& a < s.len()
    &&& s[a] == '{'
    &&& b < s.len()
    &&& s[b] == '}'
    &&& skip_ws(s, b + 1) == s.len()
}

/// The wait, in milliseconds, after the `k`-th failed attempt (1-based).
pub open spec fn backoff_spec(k: nat) -> nat
    recommends
        k >= 1,
{
    500 * pow2((k - 1) as nat)
}

/// Why the dispatch of a chunk was given up.
#[derive(PartialEq, Eq, Structural, Clone, Copy, Debug)]
pub enum DispatchError {
    /// Every try failed at the transport or endpoint level.
    RetriesExhausted,
    /// A non-empty reply did not decode as a cleaned excerpt.
    MalformedResponse,
}

/// The operator's line for each error.
pub open spec fn message_spec(e: DispatchError) -> Seq<char> {
    match e {
        DispatchError::RetriesExhausted => "All retries failed"@,
        DispatchError::MalformedResponse => "Malformed response"@,
    }
}

impl DispatchError {
    /// A line for the operator that says why the chunk was given up.
    pub fn message(&self) -> (r: String)
        ensures
            r@ == message_spec(*self),
    {
        match self {
            DispatchError::RetriesExhausted => String::from_str("All retries failed"),
            DispatchError::MalformedResponse => String::from_str("Malformed response"),
        }
    }
}

/// What happened since the last action.
#[derive(Debug)]
pub enum Event {
    /// Nothing yet: the dispatch of a chunk begins.
    Start,
    /// The endpoint answered with this text.
    Answered(String),
    /// The request failed at the transport or endpoint level.
    RequestFailed,
    /// The wait asked for has elapsed.
    Waited,
    /// The result of decoding an answer: the excerpt, or `None` where the
    /// answer was not a well-formed excerpt object.
    Decoded(Option<String>),
}

/// What the caller must do next.
#[derive(Debug)]
pub enum Action {
    /// Send the chunk to the endpoint.
    Send,
    /// Sleep this many milliseconds, then report `Event::Waited`.
    Wait(u64),
    /// Decode this answer as an excerpt object, then report `Event::Decoded`.
    Decode(String),
    /// The dispatch is over: the cleaned text, or `None` for "no content".
    Finish(Option<String>),
    /// The dispatch is over and failed.
    Abort(DispatchError),
}

/// The state of the dispatch of one chunk: how many tries have failed.
#[derive(Clone, Copy, Debug)]
pub struct Dispatcher {
    pub failures: u32,
}

/// The action that follows `event` in a dispatcher that has seen `failures`
/// failed tries.
pub open spec fn action_spec(failures: nat, event: Event) -> Action {
    match event {
        Event::Start => Action::Send,
        Event::Waited => Action::Send,
        Event::RequestFailed => if failures + 1 <= MAX_RETRIES {
            Action::Wait(backoff_spec(failures + 1) as u64)
        } else {
            Action::Abort(DispatchError::RetriesExhausted)
        },
        Event::Answered(text) => if is_empty_object_spec(text@) {
            Action::Finish(None)
        } else {
            Action::Decode(text)
        },
        Event::Decoded(Some(text)) => Action::Finish(Some(text)),
        Event::Decoded(None) => Action::Abort(DispatchError::MalformedResponse),
    }
}

/// The number of failed tries after `event`.
pub open spec fn failures_after(failures: nat, event: Event) -> nat {
    match event {
        Event::RequestFailed => if failures <= MAX_RETRIES {
            failures + 1
        } else {
            failures
        },
        _ => failures,
    }
}

/// The wait after the `k`-th failed try (1-based), for `1 <= k <= MAX_RETRIES`.
pub fn backoff_delay_ms(k: u32) -> (r: u64)
    requires
        1 <= k <= MAX_RETRIES,
    ensures
        r == backoff_spec(k as nat),
{
    let mut delay: u64 = BASE_DELAY_MS;
    let mut i: u32 = 1;
    proof {
        vstd::arithmetic::power2::lemma2_to64();
    }
    while i < k
        invariant
            1 <= i <= k <= MAX_RETRIES,
            delay == 500 * pow2((i - 1) as nat),
        decreases k - i,
    {
        proof {
            vstd::arithmetic::power2::lemma_pow2_unfold(i as nat);
            vstd::arithmetic::power2::lemma_pow2_strictly_increases((i - 1) as nat, 4);
            vstd::arithmetic::power2::lemma2_to64();
        }
        delay = delay * 2;
        i = i + 1;
    }
    delay
}

/// The first position at or after `k` in `s` (of `n` chars) that does not
/// hold JSON whitespace, or `n`.
fn skip_ws_exec(s: &str, n: usize, k: usize) -> (r: usize)
    requires
        n == s@.len(),
        k <= n,
    ensures
        r == skip_ws(s@, k as int),
{
    let mut i: usize = k;
    while i < n
        invariant
            n == s@.len(),
            k <= i <= n,
            skip_ws(s@, k as int) == skip_ws(s@, i as int),
        decreases n - i,
    {
        let c = s.get_char(i);
        if !(c == ' ' || c == '\t' || c == '\n' || c == '\r') {
            return i;
        }
        i = i + 1;
    }
    i
}

/// Whether `s` is an empty JSON object reply, such as `{}` or `{ }\n`.
pub fn is_empty_object(s: &str) -> (r: bool)
    ensures
        r == is_empty_object_spec(s@),
{
    let n = s.unicode_len();
    let a = skip_ws_exec(s, n, 0);
    if a >= n || s.get_char(a) != '{' {
        return false;
    }
    let b = skip_ws_exec(s, n, a + 1);
    if b >= n || s.get_char(b) != '}' {
        return false;
    }
    skip_ws_exec(s, n, b + 1) == n
}

impl Dispatcher {
    pub open spec fn wf(&self) -> bool {
        self.failures <= MAX_RETRIES + 1
    }

    /// A dispatcher before the first try.
    pub fn new() -> (r: Dispatcher)
        ensures
            r.failures == 0,
            r.wf(),
    {
        Dispatcher { failures: 0 }
    }

    /// Takes the next event and says what to do.
    pub fn step(&mut self, event: Event) -> (r: Action)
        requires
            old(self).wf(),
        ensures
            final(self).wf(),
            r == action_spec(old(self).failures as nat, event),
            final(self).failures == failures_after(old(self).failures as nat, event),
    {
        match event {
            Event::Start => Action::Send,
            Event::Waited => Action::Send,
            Event::RequestFailed => {
                if self.failures < MAX_RETRIES {
                    self.failures = self.failures + 1;
                    Action::Wait(backoff_delay_ms(self.failures))
                } else {
                    if self.failures == MAX_RETRIES {
                        self.failures = MAX_RETRIES + 1;
                    }
                    Action::Abort(DispatchError::RetriesExhausted)
                }
            },
            Event::Answered(text) => {
                if is_empty_object(text.as_str()) {
                    Action::Finish(None)
                } else {
                    Action::Decode(text)
                }
            },
            Event::Decoded(Some(text)) => Action::Finish(Some(text)),
            Event::Decoded(None) => Action::Abort(DispatchError::MalformedResponse),
        }
    }
}

/// The backoff schedule: the `k`-th failed try (1-based) of a dispatch is
/// followed by a wait of `500 * 2^(k-1)` ms while `k <= MAX_RETRIES`, each
/// wait twice the one before; the failure of try `MAX_RETRIES + 1` gives up
/// with `RetriesExhausted`.
pub proof fn backoff_schedule(k: nat)
    requires
        1 <= k <= MAX_RETRIES + 1,
    ensures
        failures_after((k - 1) as nat, Event::RequestFailed) == k,
        k <= MAX_RETRIES ==> action_spec((k - 1) as nat, Event::RequestFailed) == Action::Wait(
            (500 * pow2((k - 1) as nat)) as u64,
        ),
        k == MAX_RETRIES + 1 ==> action_spec((k - 1) as nat, Event::RequestFailed)
            == Action::Abort(DispatchError::RetriesExhausted),
        2 <= k <= MAX_RETRIES ==> backoff_spec(k) == 2 * backoff_spec((k - 1) as nat),
{
    if k >= 2 {
        vstd::arithmetic::power2::lemma_pow2_unfold((k - 1) as nat);
    }
}

/// The "no content" reply: an answer that is an empty JSON object ends the
/// dispatch with no text and no error, whatever tries failed before it.
pub proof fn empty_reply_is_no_content(failures: nat, text: String)
    requires
        is_empty_object_spec(text@),
    ensures
        action_spec(failures, Event::Answered(text)) == Action::Finish(None),
        failures_after(failures, Event::Answered(text)) == failures,
{
}

} // verus!
