//! The installation state machine: download, verify, then extract.
//!
//! The machine does no I/O. A driver asks it which action comes next
//! (`State::next_action`), performs that action, and hands the outcome back
//! as an `Event` to `step`, which returns the next state and one progress
//! observation. Hashing happens inside `step`.
use crate::buffer::{append_bytes, buffer_bytes, buffer_contents, buffer_len, buffer_limit, new_buffer};
use crate::checksum::{first_token, first_token_of};
use crate::digest::{digest, digest_matches, digest_of, digests_match};
use crate::error::ErrorKind;
use bytes::BytesMut;
use vstd::prelude::*;

verus! {

/// Where an installation stands, as an observer sees it.
#[derive(Clone, Copy, Debug, PartialEq, Eq, Structural)]
pub enum Progress {
    Started,
    /// Share of the declared length received so far, in whole percent,
    /// at most 100.
    Advanced(u64),
    CheckIntegrity,
    Installing,
    Finished,
    Errored,
}

/// The state of one installation attempt.
pub enum State {
    /// Nothing fetched yet.
    Ready { checksum_url: String, tarball_url: String },
    /// The expected digest is known; the tarball request is next.
    ChecksumResolved { tarball_url: String, expected: String },
    /// Receiving the tarball body.
    Downloading { expected: String, total: u64, buffer: BytesMut },
    /// The whole body is in memory; its digest is next.
    Verifying { expected: String, buffer: BytesMut },
    /// The digest matched; unpacking is next.
    Extracting { buffer: BytesMut },
    Finished,
    Errored(ErrorKind),
}

/// The outcome of the action a state asked for.
pub enum Event {
    /// The checksum resource's body.
    ChecksumBody(String),
    /// The tarball response arrived, with its declared length if any.
    ContentLength(Option<u64>),
    /// One more piece of the tarball body.
    Chunk(Vec<u8>),
    /// The tarball body is exhausted.
    EndOfBody,
    /// No outside work was asked for.
    Proceed,
    /// The archive was unpacked.
    Unpacked,
    /// A request or transfer failed.
    NetworkFailure,
    /// Unpacking failed.
    UnpackFailure,
}

/// The outside work a state asks its driver for.
#[derive(Debug, PartialEq, Eq)]
pub enum Action {
    /// GET this URL and report its body.
    FetchChecksum(String),
    /// GET this URL and report the declared content length.
    OpenTarball(String),
    /// Read the next piece of the open tarball response.
    PullChunk,
    /// Nothing outside; step again with `Event::Proceed`.
    Verify,
    /// Unpack the buffer of the `Extracting` state.
    Unpack,
    /// The installation is over; stop stepping.
    Stop,
}

pub open spec fn is_terminal(s: State) -> bool {
    s is Finished || s is Errored
}

/// Which events a state accepts.
pub open spec fn accepts(s: State, e: Event) -> bool {
    match s {
        State::Ready { .. } => e is ChecksumBody || e is NetworkFailure,
        State::ChecksumResolved { .. } => e is ContentLength || e is NetworkFailure,
        State::Downloading { .. } => e is Chunk || e is EndOfBody || e is NetworkFailure,
        State::Verifying { .. } => e is Proceed,
        State::Extracting { .. } => e is Unpacked || e is UnpackFailure,
        State::Finished => false,
        State::Errored(_) => false,
    }
}

/// Whole percent of `total` that `len` bytes make, clamped at 100.
pub open spec fn percent(len: nat, total: nat) -> nat {
    if len >= total {
        100
    } else {
        len * 100 / total
    }
}

pub open spec fn failed_with(s2: State, p: Progress, k: ErrorKind) -> bool {
    s2 == State::Errored(k) && p == Progress::Errored
}

/// One step of the machine: from `s`, event `e` leads to `s2` and is
/// reported as `p`.
pub open spec fn step_spec(s: State, e: Event, s2: State, p: Progress) -> bool {
    match s {
        State::Ready { checksum_url: _, tarball_url } => match e {
            Event::ChecksumBody(body) => match first_token_of(body@) {
                Some(t) => p == Progress::Started && (s2 matches State::ChecksumResolved {
                    tarball_url: u2,
                    expected,
                } && u2@ == tarball_url@ && expected@ == t),
                None => failed_with(s2, p, ErrorKind::MalformedChecksum),
            },
            _ => failed_with(s2, p, ErrorKind::NetworkError),
        },
        State::ChecksumResolved { tarball_url: _, expected } => match e {
            Event::ContentLength(Some(n)) => p == Progress::Advanced(0) && (s2 matches State::Downloading {
                expected: x2,
                total,
                buffer,
            } && x2@ == expected@ && total == n && buffer_contents(buffer) == Seq::<u8>::empty()),
            _ => failed_with(s2, p, ErrorKind::NetworkError),
        },
        State::Downloading { expected, total, buffer } => match e {
            Event::Chunk(c) => {
                let grown = buffer_contents(buffer) + c@;
                if grown.len() <= buffer_limit() {
                    p == Progress::Advanced(percent(grown.len(), total as nat) as u64) && (
                    s2 matches State::Downloading { expected: x2, total: t2, buffer: b2 } && x2@
                        == expected@ && t2 == total && buffer_contents(b2) == grown)
                } else {
                    failed_with(s2, p, ErrorKind::NetworkError)
                }
            },
            Event::EndOfBody => p == Progress::CheckIntegrity && (s2 matches State::Verifying {
                expected: x2,
                buffer: b2,
            } && x2@ == expected@ && buffer_contents(b2) == buffer_contents(buffer)),
            _ => failed_with(s2, p, ErrorKind::NetworkError),
        },
        State::Verifying { expected, buffer } => if digests_match(
            digest_of(buffer_contents(buffer)),
            expected@,
        ) {
            p == Progress::Installing && (s2 matches State::Extracting { buffer: b2 }
                && buffer_contents(b2) == buffer_contents(buffer))
        } else {
            failed_with(s2, p, ErrorKind::ChecksumMismatch)
        },
        State::Extracting { .. } => match e {
            Event::Unpacked => s2 == State::Finished && p == Progress::Finished,
            _ => failed_with(s2, p, ErrorKind::ExtractionError),
        },
        State::Finished => false,
        State::Errored(_) => false,
    }
}

fn percent_done(len: usize, total: u64) -> (r: u64)
    ensures
        r == percent(len as nat, total as nat),
        r <= 100,
{
    if len as u64 >= total {
        100
    } else {
        let scaled: u128 = len as u128 * 100;
        let r = scaled / (total as u128);
        proof {
            vstd::arithmetic::div_mod::lemma_multiply_divide_lt(scaled as int, total as int, 100);
        }
        r as u64
    }
}

impl State {
    /// A fresh installation of the artifact at `tarball_url`, whose digest is
    /// published at `checksum_url`.
    pub fn new(checksum_url: String, tarball_url: String) -> (r: State)
        ensures
            r matches State::Ready { checksum_url: c, tarball_url: t } && c@ == checksum_url@ && t@
                == tarball_url@,
    {
        State::Ready { checksum_url, tarball_url }
    }

    pub fn is_terminal(&self) -> (r: bool)
        ensures
            r == is_terminal(*self),
    {
        match self {
            State::Finished => true,
            State::Errored(_) => true,
            _ => false,
        }
    }

    /// The outside work this state waits for.
    pub fn next_action(&self) -> (r: Action)
        ensures
            match *self {
                State::Ready { checksum_url, .. } => r matches Action::FetchChecksum(u) && u@
                    == checksum_url@,
                State::ChecksumResolved { tarball_url, .. } => r matches Action::OpenTarball(u)
                    && u@ == tarball_url@,
                State::Downloading { .. } => r == Action::PullChunk,
                State::Verifying { .. } => r == Action::Verify,
                State::Extracting { .. } => r == Action::Unpack,
                State::Finished => r == Action::Stop,
                State::Errored(_) => r == Action::Stop,
            },
    {
        match self {
            State::Ready { checksum_url, .. } => Action::FetchChecksum(checksum_url.clone()),
            State::ChecksumResolved { tarball_url, .. } => Action::OpenTarball(tarball_url.clone()),
            State::Downloading { .. } => Action::PullChunk,
            State::Verifying { .. } => Action::Verify,
            State::Extracting { .. } => Action::Unpack,
            State::Finished => Action::Stop,
            State::Errored(_) => Action::Stop,
        }
    }
}

/// Advances the machine by one event. Terminal states accept no event.
pub fn step(s: State, e: Event) -> (r: (State, Progress))
    requires
        accepts(s, e),
    ensures
        step_spec(s, e, r.0, r.1),
{
    match s {
        State::Ready { checksum_url: _, tarball_url } => match e {
            Event::ChecksumBody(body) => match first_token(body.as_str()) {
                Some(expected) => (State::ChecksumResolved { tarball_url, expected }, Progress::Started),
                None => (State::Errored(ErrorKind::MalformedChecksum), Progress::Errored),
            },
            _ => (State::Errored(ErrorKind::NetworkError), Progress::Errored),
        },
        State::ChecksumResolved { tarball_url: _, expected } => match e {
            Event::ContentLength(Some(total)) => (
                State::Downloading { expected, total, buffer: new_buffer() },
                Progress::Advanced(0),
            ),
            _ => (State::Errored(ErrorKind::NetworkError), Progress::Errored),
        },
        State::Downloading { expected, total, buffer } => match e {
            Event::Chunk(c) => {
                let mut buffer = buffer;
                let len = buffer_len(&buffer);
                if (len as u128) + (c.len() as u128) <= (isize::MAX as u128) / 4 {
                    append_bytes(&mut buffer, c.as_slice());
                    let p = percent_done(buffer_len(&buffer), total);
                    (State::Downloading { expected, total, buffer }, Progress::Advanced(p))
                } else {
                    (State::Errored(ErrorKind::NetworkError), Progress::Errored)
                }
            },
            Event::EndOfBody => (State::Verifying { expected, buffer }, Progress::CheckIntegrity),
            _ => (State::Errored(ErrorKind::NetworkError), Progress::Errored),
        },
        State::Verifying { expected, buffer } => {
            let computed = digest(buffer_bytes(&buffer));
            if digest_matches(computed.as_str(), expected.as_str()) {
                (State::Extracting { buffer }, Progress::Installing)
            } else {
                (State::Errored(ErrorKind::ChecksumMismatch), Progress::Errored)
            }
        },
        State::Extracting { buffer: _ } => match e {
            Event::Unpacked => (State::Finished, Progress::Finished),
            _ => (State::Errored(ErrorKind::ExtractionError), Progress::Errored),
        },
        State::Finished => (State::Finished, Progress::Finished),
        State::Errored(k) => (State::Errored(k), Progress::Errored),
    }
}


/// `states`, `events` and `progress` record a run: each event is accepted by
/// the state before it and leads to the state after it, reported as the
/// progress at the same index.
pub open spec fn is_run(states: Seq<State>, events: Seq<Event>, progress: Seq<Progress>) -> bool {
    &&& states.len() == events.len() + 1
    &&& progress.len() == events.len()
    &&& forall|i: int|
        0 <= i < events.len() ==> accepts(states[i], #[trigger] events[i]) && step_spec(
            states[i],
            events[i],
            states[i + 1],
            progress[i],
        )
}

pub open spec fn advanced_value(p: Progress) -> int {
    match p {
        Progress::Advanced(v) => v as int,
        _ => 0,
    }
}

/// The first `m` observations are `Started` followed by `Advanced` values
/// that never decrease.
pub open spec fn download_observations(ps: Seq<Progress>, m: int) -> bool {
    &&& 1 <= m <= ps.len()
    &&& ps[0] == Progress::Started
    &&& forall|i: int| 1 <= i < m ==> #[trigger] ps[i] is Advanced
    &&& forall|i: int, j: int|
        1 <= i <= j < m ==> advanced_value(#[trigger] ps[i]) <= advanced_value(#[trigger] ps[j])
}

/// `Started, Advanced(p1), ..., Advanced(pn), CheckIntegrity, Installing,
/// Finished`, with `p1 <= ... <= pn`.
pub open spec fn successful_observations(ps: Seq<Progress>) -> bool {
    let n = ps.len() as int;
    &&& n >= 5
    &&& download_observations(ps, n - 3)
    &&& ps[n - 3] == Progress::CheckIntegrity
    &&& ps[n - 2] == Progress::Installing
    &&& ps[n - 1] == Progress::Finished
}

/// What the first `k` observations of a run from `Ready` are, given that the
/// run is in state `s` after them.
pub open spec fn observed_so_far(s: State, ps: Seq<Progress>, k: int) -> bool {
    match s {
        State::Ready { .. } => k == 0,
        State::ChecksumResolved { .. } => k == 1 && ps[0] == Progress::Started,
        State::Downloading { total, buffer, .. } => k >= 2 && download_observations(ps, k) && (
        forall|i: int|
            1 <= i < k ==> advanced_value(#[trigger] ps[i]) <= percent(
                buffer_contents(buffer).len(),
                total as nat,
            )),
        State::Verifying { .. } => k >= 3 && download_observations(ps, k - 1) && ps[k - 1]
            == Progress::CheckIntegrity,
        State::Extracting { .. } => k >= 4 && download_observations(ps, k - 2) && ps[k - 2]
            == Progress::CheckIntegrity && ps[k - 1] == Progress::Installing,
        State::Finished => k >= 5 && download_observations(ps, k - 3) && ps[k - 3]
            == Progress::CheckIntegrity && ps[k - 2] == Progress::Installing && ps[k - 1]
            == Progress::Finished,
        State::Errored(_) => true,
    }
}

proof fn lemma_percent_monotonic(a: nat, b: nat, t: nat)
    requires
        a <= b,
    ensures
        percent(a, t) <= percent(b, t),
        percent(b, t) <= 100,
{
    if b < t {
        vstd::arithmetic::div_mod::lemma_multiply_divide_lt((b * 100) as int, t as int, 100);
        assert(a * 100 <= b * 100) by (nonlinear_arith)
            requires
                a <= b,
        ;
        vstd::arithmetic::div_mod::lemma_div_is_ordered((a * 100) as int, (b * 100) as int, t as int);
    }
    if a < t {
        vstd::arithmetic::div_mod::lemma_multiply_divide_lt((a * 100) as int, t as int, 100);
    }
}

proof fn lemma_run_prefix(states: Seq<State>, events: Seq<Event>, progress: Seq<Progress>, k: int)
    requires
        is_run(states, events, progress),
        states[0] is Ready,
        0 <= k < states.len(),
    ensures
        observed_so_far(states[k], progress, k),
    decreases k,
{
    if k > 0 {
        lemma_run_prefix(states, events, progress, k - 1);
        let s = states[k - 1];
        let e = events[k - 1];
        assert(accepts(s, e) && step_spec(s, e, states[k], progress[k - 1]));
        match s {
            State::Downloading { expected, total, buffer } => {
                if let Event::Chunk(c) = e {
                    let grown = buffer_contents(buffer) + c@;
                    if grown.len() <= buffer_limit() {
                        lemma_percent_monotonic(
                            buffer_contents(buffer).len(),
                            grown.len(),
                            total as nat,
                        );
                        assert(advanced_value(progress[k - 1]) == percent(grown.len(), total as nat));
                    }
                }
            },
            _ => {},
        }
    }
}

/// Ordering: a run from `Ready` that ends in `Finished` is observed as
/// `Started`, then non-decreasing `Advanced` values, then `CheckIntegrity`,
/// `Installing` and `Finished`.
pub proof fn lemma_successful_run_order(
    states: Seq<State>,
    events: Seq<Event>,
    progress: Seq<Progress>,
)
    requires
        is_run(states, events, progress),
        states[0] is Ready,
        states.last() is Finished,
    ensures
        successful_observations(progress),
{
    lemma_run_prefix(states, events, progress, states.len() - 1);
}

/// Safety: `Extracting` is entered only from `Verifying`, only when the
/// digest of the buffer matches the expected digest, and with that same
/// buffer.
pub proof fn lemma_extract_only_after_match(s: State, e: Event, s2: State, p: Progress)
    requires
        accepts(s, e),
        step_spec(s, e, s2, p),
        s2 is Extracting,
    ensures
        s matches State::Verifying { expected, buffer } && digests_match(
            digest_of(buffer_contents(buffer)),
            expected@,
        ) && buffer_contents(s2->Extracting_buffer) == buffer_contents(buffer),
{
}

/// A buffer whose digest does not match leads to `Errored(ChecksumMismatch)`,
/// whatever its size.
pub proof fn lemma_mismatch_is_error(s: State, e: Event, s2: State, p: Progress)
    requires
        s matches State::Verifying { expected, buffer } && !digests_match(
            digest_of(buffer_contents(buffer)),
            expected@,
        ),
        accepts(s, e),
        step_spec(s, e, s2, p),
    ensures
        s2 == State::Errored(ErrorKind::ChecksumMismatch),
        p == Progress::Errored,
{
}

/// A run whose `Verifying` state holds a mismatching buffer never finishes.
pub proof fn lemma_mismatch_never_finishes(
    states: Seq<State>,
    events: Seq<Event>,
    progress: Seq<Progress>,
    v: int,
)
    requires
        is_run(states, events, progress),
        0 <= v < states.len(),
        states[v] matches State::Verifying { expected, buffer } && !digests_match(
            digest_of(buffer_contents(buffer)),
            expected@,
        ),
    ensures
        forall|j: int| v < j < states.len() ==> #[trigger] states[j] == State::Errored(ErrorKind::ChecksumMismatch),
{
    assert forall|j: int| v < j < states.len() implies #[trigger] states[j] == State::Errored(
        ErrorKind::ChecksumMismatch,
    ) by {
        lemma_mismatch_tail(states, events, progress, v, j);
    }
}

proof fn lemma_mismatch_tail(
    states: Seq<State>,
    events: Seq<Event>,
    progress: Seq<Progress>,
    v: int,
    j: int,
)
    requires
        is_run(states, events, progress),
        0 <= v < j < states.len(),
        states[v] matches State::Verifying { expected, buffer } && !digests_match(
            digest_of(buffer_contents(buffer)),
            expected@,
        ),
    ensures
        states[j] == State::Errored(ErrorKind::ChecksumMismatch),
    decreases j - v,
{
    assert(accepts(states[v], events[v]) && step_spec(states[v], events[v], states[v + 1], progress[v]));
    if j > v + 1 {
        lemma_mismatch_tail(states, events, progress, v, j - 1);
        assert(accepts(states[j - 1], events[j - 1]));
    }
}

} // verus!
