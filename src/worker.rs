//! The pagination loop of one pair, as a state machine. The caller performs
//! each action (a request, a page write, a checkpoint update) and hands back
//! what came of it as the next event.

use crate::candle::{
    candles_view, decode, decoded, json_rows, page_name, page_name_of, request_url, rows_error,
    Candle, DecodeError, RowView,
};
use crate::checkpoint::ToSave;
use vstd::prelude::*;

verus! {

/// Consecutive failures after which a pair gives up.
pub const MAX_FAILURES: u32 = 5;

/// Wait before the first retry; each further retry waits twice as long.
pub const BASE_DELAY_MS: u64 = 500;

/// Longest wait between two tries.
pub const MAX_DELAY_MS: u64 = 30000;

/// How a request failed.
#[derive(Debug, Clone, Copy, PartialEq, Eq, Structural)]
pub enum TransportError {
    /// The service could not be reached, or the connection broke.
    Connect,
    /// The service answered with a status other than success.
    Status { code: u16 },
}

/// Where the worker stands.
#[derive(Debug, Clone, Copy, PartialEq, Eq, Structural)]
pub enum Phase {
    /// A request for the page at the cursor is out.
    Requesting,
    /// A non-empty page is being written; `next` is the cursor after it.
    Writing { next: i64 },
    /// The page is written and the checkpoint is being moved to `next`.
    Advancing { next: i64 },
    /// An empty page came back and the final checkpoint is being stored.
    Finalizing,
    /// Done: the source has nothing after the cursor.
    Terminated,
    /// Too many consecutive failures.
    Failed,
}

/// What came of the last action.
pub enum Event {
    /// The body of a successful response.
    Body(Vec<u8>),
    /// The request failed.
    Transport(TransportError),
    /// The page was stored.
    Written,
    /// The page could not be stored.
    WriteFailed,
    /// The checkpoint was stored.
    Checkpointed,
    /// The checkpoint could not be stored.
    CheckpointFailed,
}

/// What the caller is to do next.
#[derive(Debug)]
pub enum Action {
    /// Wait `delay_ms` milliseconds, then request `url`.
    Fetch { url: String, delay_ms: u64 },
    /// Store `page` under `name`, relative to the storage root.
    Write { name: String, page: Vec<Candle> },
    /// Move this pair's stored cursor to `start_time`.
    Checkpoint { start_time: i64 },
    /// The pair is done.
    Stop,
    /// The pair failed for good.
    GiveUp,
    /// The event did not belong to the current phase; nothing to do.
    Ignore,
}

/// Wait before a try that follows `failures` consecutive failures.
pub open spec fn retry_delay(failures: nat) -> nat
    decreases failures,
{
    if failures == 0 {
        0
    } else if failures == 1 {
        BASE_DELAY_MS as nat
    } else {
        let d = 2 * retry_delay((failures - 1) as nat);
        if d > MAX_DELAY_MS { MAX_DELAY_MS as nat } else { d }
    }
}

/// The cursor after a page whose last candle closes at `close_time`.
pub open spec fn cursor_after(close_time: i64) -> i64 {
    if close_time < i64::MAX { (close_time + 1) as i64 } else { close_time }
}

/// A decoded page as plain values.
pub open spec fn page_view(r: Result<Vec<Candle>, DecodeError>) -> Result<Seq<RowView>, DecodeError> {
    match r {
        Ok(p) => Ok(candles_view(p@)),
        Err(e) => Err(e),
    }
}

/// One pair's pagination: its request base, pair, cursor and phase.
pub struct PairWorker {
    pub base_url: String,
    pub symbol: String,
    pub interval: String,
    pub cursor: i64,
    pub failures: u32,
    pub phase: Phase,
}

fn delay_for(failures: u32) -> (r: u64)
    requires
        failures <= MAX_FAILURES,
    ensures
        r as nat == retry_delay(failures as nat),
{
    if failures == 0 {
        return 0;
    }
    let mut d: u64 = BASE_DELAY_MS;
    let mut k: u32 = 1;
    while k < failures
        invariant
            1 <= k <= failures,
            failures <= MAX_FAILURES,
            d as nat == retry_delay(k as nat),
            d <= MAX_DELAY_MS,
        decreases failures - k,
    {
        d = if 2 * d > MAX_DELAY_MS { MAX_DELAY_MS } else { 2 * d };
        k = k + 1;
    }
    d
}

impl PairWorker {
    pub open spec fn wf(&self) -> bool {
        &&& self.failures <= MAX_FAILURES
        &&& !(self.phase is Failed) ==> self.failures < MAX_FAILURES
    }

    /// Same request base and pair.
    pub open spec fn same_pair(&self, other: &PairWorker) -> bool {
        &&& self.base_url@ == other.base_url@
        &&& self.symbol@ == other.symbol@
        &&& self.interval@ == other.interval@
    }

    /// `a` asks for the page at the cursor, after the wait due to the
    /// failures so far.
    pub open spec fn is_request(&self, a: Action) -> bool {
        &&& a matches Action::Fetch { url, delay_ms }
        &&& a->Fetch_url@ == request_url(
            self.base_url@,
            self.symbol@,
            self.interval@,
            self.cursor,
            "1000"@,
        )
        &&& a->Fetch_delay_ms as nat == retry_delay(self.failures as nat)
    }

    /// After a failure: the cursor stays; the same page is asked for again
    /// after a longer wait, or the pair gives up once the failures reach
    /// the ceiling.
    pub open spec fn failed_from(&self, prev: &PairWorker, a: Action) -> bool {
        &&& self.same_pair(prev)
        &&& self.cursor == prev.cursor
        &&& self.failures == prev.failures + 1
        &&& if prev.failures + 1 >= MAX_FAILURES {
            self.phase == Phase::Failed && a == Action::GiveUp
        } else {
            self.phase == Phase::Requesting && self.is_request(a)
        }
    }

    /// The step taken on a decoded page (or decode error) while requesting.
    pub open spec fn paged_from(
        &self,
        prev: &PairWorker,
        page: Result<Seq<RowView>, DecodeError>,
        a: Action,
    ) -> bool {
        match page {
            Err(_) => self.failed_from(prev, a),
            Ok(p) => {
                &&& self.same_pair(prev)
                &&& self.cursor == prev.cursor
                &&& self.failures == prev.failures
                &&& if p.len() == 0 {
                    self.phase == Phase::Finalizing && a == Action::Checkpoint {
                        start_time: prev.cursor,
                    }
                } else {
                    &&& self.phase == Phase::Writing { next: cursor_after(p.last().6) }
                    &&& a matches Action::Write { name, page }
                    &&& a->Write_name@ == page_name_of(prev.symbol@, prev.interval@, p)
                    &&& candles_view(a->Write_page@) == p
                }
            },
        }
    }

    /// Nothing changed and nothing is to be done.
    pub open spec fn unchanged_from(&self, prev: &PairWorker, a: Action) -> bool {
        *self == *prev && a == Action::Ignore
    }

    /// The transition on event `ev` from `prev`, with action `a`.
    pub open spec fn stepped_from(&self, prev: &PairWorker, ev: Event, a: Action) -> bool {
        match ev {
            Event::Body(b) => if prev.phase is Requesting {
                self.paged_from(prev, decoded(b@), a)
            } else {
                self.unchanged_from(prev, a)
            },
            Event::Transport(_) => if prev.phase is Requesting {
                self.failed_from(prev, a)
            } else {
                self.unchanged_from(prev, a)
            },
            Event::Written => match prev.phase {
                Phase::Writing { next } => {
                    &&& self.same_pair(prev)
                    &&& self.cursor == prev.cursor
                    &&& self.failures == prev.failures
                    &&& self.phase == Phase::Advancing { next }
                    &&& a == Action::Checkpoint { start_time: next }
                },
                _ => self.unchanged_from(prev, a),
            },
            Event::WriteFailed => if prev.phase is Writing {
                self.failed_from(prev, a)
            } else {
                self.unchanged_from(prev, a)
            },
            Event::Checkpointed => match prev.phase {
                Phase::Advancing { next } => {
                    &&& self.same_pair(prev)
                    &&& self.cursor == next
                    &&& self.failures == 0
                    &&& self.phase == Phase::Requesting
                    &&& self.is_request(a)
                },
                Phase::Finalizing => {
                    &&& self.same_pair(prev)
                    &&& self.cursor == prev.cursor
                    &&& self.failures == prev.failures
                    &&& self.phase == Phase::Terminated
                    &&& a == Action::Stop
                },
                _ => self.unchanged_from(prev, a),
            },
            Event::CheckpointFailed => if prev.phase is Advancing || prev.phase is Finalizing {
                self.failed_from(prev, a)
            } else {
                self.unchanged_from(prev, a)
            },
        }
    }

    /// A worker for one pair, about to ask for the page at its stored cursor.
    pub fn new(base_url: String, pair: &ToSave) -> (r: PairWorker)
        ensures
            r.wf(),
            r.base_url@ == base_url@,
            r.symbol@ == pair.symbol@,
            r.interval@ == pair.interval@,
            r.cursor == pair.start_time,
            r.failures == 0,
            r.phase == Phase::Requesting,
    {
        PairWorker {
            base_url,
            symbol: pair.symbol.clone(),
            interval: pair.interval.clone(),
            cursor: pair.start_time,
            failures: 0,
            phase: Phase::Requesting,
        }
    }

    /// The request for the page at the cursor.
    pub fn request(&self) -> (a: Action)
        requires
            self.wf(),
        ensures
            self.is_request(a),
    {
        proof {
            reveal_strlit("1000");
        }
        let url = Candle::format(
            self.base_url.as_str(),
            self.symbol.as_str(),
            self.interval.as_str(),
            self.cursor,
            "1000",
        );
        Action::Fetch { url, delay_ms: delay_for(self.failures) }
    }

    /// Takes a decoded page while requesting: a decode error is a failure
    /// that keeps the cursor; an empty page finalizes at the cursor; a
    /// non-empty page is to be written, and the cursor will move past its
    /// last close time. In any other phase the page is ignored.
    pub fn on_decoded(&mut self, page: Result<Vec<Candle>, DecodeError>) -> (a: Action)
        requires
            old(self).wf(),
        ensures
            final(self).wf(),
            old(self).phase is Requesting ==> final(self).paged_from(old(self), page_view(page), a),
            !(old(self).phase is Requesting) ==> final(self).unchanged_from(old(self), a),
    {
        if self.phase != Phase::Requesting {
            return Action::Ignore;
        }
        match page {
            Err(_) => self.fail(),
            Ok(p) => {
                if p.len() == 0 {
                    self.phase = Phase::Finalizing;
                    Action::Checkpoint { start_time: self.cursor }
                } else {
                    let last = p[p.len() - 1].close_time;
                    let next = if last < i64::MAX {
                        last + 1
                    } else {
                        last
                    };
                    let name = page_name(self.symbol.as_str(), self.interval.as_str(), &p);
                    self.phase = Phase::Writing { next };
                    Action::Write { name, page: p }
                }
            },
        }
    }

    /// Takes the outcome of the last action and says what to do next.
    pub fn step(&mut self, ev: Event) -> (a: Action)
        requires
            old(self).wf(),
        ensures
            final(self).wf(),
            final(self).stepped_from(old(self), ev, a),
    {
        match ev {
            Event::Body(b) => {
                if self.phase == Phase::Requesting {
                    let page = decode(b.as_slice());
                    self.on_decoded(page)
                } else {
                    Action::Ignore
                }
            },
            Event::Transport(_) => {
                if self.phase == Phase::Requesting {
                    self.fail()
                } else {
                    Action::Ignore
                }
            },
            Event::Written => match self.phase {
                Phase::Writing { next } => {
                    self.phase = Phase::Advancing { next };
                    Action::Checkpoint { start_time: next }
                },
                _ => Action::Ignore,
            },
            Event::WriteFailed => match self.phase {
                Phase::Writing { .. } => self.fail(),
                _ => Action::Ignore,
            },
            Event::Checkpointed => match self.phase {
                Phase::Advancing { next } => {
                    self.cursor = next;
                    self.failures = 0;
                    self.phase = Phase::Requesting;
                    self.request()
                },
                Phase::Finalizing => {
                    self.phase = Phase::Terminated;
                    Action::Stop
                },
                _ => Action::Ignore,
            },
            Event::CheckpointFailed => match self.phase {
                Phase::Advancing { .. } => self.fail(),
                Phase::Finalizing => self.fail(),
                _ => Action::Ignore,
            },
        }
    }

    fn fail(&mut self) -> (a: Action)
        requires
            old(self).wf(),
            !(old(self).phase is Failed),
        ensures
            final(self).wf(),
            final(self).failed_from(old(self), a),
    {
        self.failures = self.failures + 1;
        if self.failures >= MAX_FAILURES {
            self.phase = Phase::Failed;
            Action::GiveUp
        } else {
            self.phase = Phase::Requesting;
            self.request()
        }
    }
}

/// Writing a page again is idempotent: two workers of the same pair at the
/// same cursor that receive byte-identical bodies ask for the same artifact,
/// under the same name and with the same content, so the second write leaves
/// what the first one stored.
pub proof fn lemma_rewrite_same_artifact(
    w1: PairWorker,
    w2: PairWorker,
    n1: PairWorker,
    n2: PairWorker,
    b1: Vec<u8>,
    b2: Vec<u8>,
    a1: Action,
    a2: Action,
)
    requires
        w1.same_pair(&w2),
        w1.cursor == w2.cursor,
        w1.phase is Requesting,
        w2.phase is Requesting,
        n1.stepped_from(&w1, Event::Body(b1), a1),
        n2.stepped_from(&w2, Event::Body(b2), a2),
        b1@ == b2@,
        a1 is Write,
    ensures
        a2 is Write,
        a1->Write_name@ == a2->Write_name@,
        candles_view(a1->Write_page@) == candles_view(a2->Write_page@),
{
}

/// The name of a page depends on its pair and its boundary times alone.
pub proof fn lemma_page_name_by_range(
    symbol: Seq<char>,
    interval: Seq<char>,
    first: Seq<RowView>,
    second: Seq<RowView>,
)
    requires
        first.len() > 0,
        second.len() > 0,
        first[0].0 == second[0].0,
        first.last().6 == second.last().6,
    ensures
        page_name_of(symbol, interval, first) == page_name_of(symbol, interval, second),
{
}

/// A body that is an empty array is no error: it ends the pair's requests
/// and stores the final checkpoint at the unchanged cursor.
pub proof fn lemma_empty_page_finalizes(w: PairWorker, n: PairWorker, b: Vec<u8>, a: Action)
    requires
        w.phase is Requesting,
        json_rows(b@) == Some(Seq::<RowView>::empty()),
        n.stepped_from(&w, Event::Body(b), a),
    ensures
        decoded(b@) == Ok::<Seq<RowView>, DecodeError>(Seq::empty()),
        n.phase == Phase::Finalizing,
        n.cursor == w.cursor,
        a == (Action::Checkpoint { start_time: w.cursor }),
{
    assert(rows_error(Seq::<RowView>::empty()) is None);
}

/// A body that does not decode (a field that is not a number, a wrong
/// arity, bad JSON) writes nothing, stores no checkpoint, and leaves the
/// cursor where it was.
pub proof fn lemma_bad_page_keeps_cursor(w: PairWorker, n: PairWorker, b: Vec<u8>, a: Action)
    requires
        w.phase is Requesting,
        decoded(b@) is Err,
        n.stepped_from(&w, Event::Body(b), a),
    ensures
        n.cursor == w.cursor,
        (a is Fetch || a is GiveUp),
{
}

} // verus!
