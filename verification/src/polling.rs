//! The polling controller: fires the relay at a fixed interval while live
//! updates are wanted, counts consecutive failures, and gives up at a
//! threshold.
//!
//! The controller owns no timer. The caller runs one at
//! [`PollingController::interval_ms`], reports each firing to
//! [`PollingController::on_timer`], performs the relay call that it asks for,
//! and reports the result to [`PollingController::on_result`].

use crate::relay::{RelayOutcome, RelayResult};
use vstd::prelude::*;

verus! {

/// Milliseconds between two ticks unless configured otherwise.
pub const POLL_INTERVAL_MS: u32 = 1000;

/// Consecutive failures after which polling gives up unless configured
/// otherwise.
pub const MAX_FAILURES: usize = 10;

/// What the caller does when its timer has fired.
#[derive(Clone, Copy, Debug, PartialEq, Eq, Structural)]
pub enum TickAction {
    /// Make one relay call for `game_code` and report its result under
    /// `ticket`.
    Fire { game_code: usize, ticket: u64 },
    /// Do nothing: the previous relay call has not reported yet.
    Skip,
    /// Cancel the timer: the controller is not running.
    Cancel,
}

/// What the user interface learns from one reported result.
#[derive(Clone, Debug, PartialEq, Eq)]
pub enum Publication {
    /// A fresh payload to show.
    Payload(String),
    /// Nothing new: the last payload stays on show.
    Unchanged,
    /// Nothing new, and live updates have stopped: the last payload stays on
    /// show, marked as stale.
    Stopped,
    /// The result belongs to a call that the controller no longer waits for.
    Discarded,
}

/// A publication as a mathematical value.
pub enum PublicationView {
    Payload(Seq<char>),
    Unchanged,
    Stopped,
    Discarded,
}

impl View for Publication {
    type V = PublicationView;

    open spec fn view(&self) -> PublicationView {
        match self {
            Publication::Payload(payload) => PublicationView::Payload(payload@),
            Publication::Unchanged => PublicationView::Unchanged,
            Publication::Stopped => PublicationView::Stopped,
            Publication::Discarded => PublicationView::Discarded,
        }
    }
}

/// What the user interface shows about the feed.
#[derive(Clone, Copy, Debug, PartialEq, Eq, Structural)]
pub enum FeedStatus {
    /// Polling was never started, or was stopped by the user.
    Idle,
    /// Polling is running.
    Live,
    /// Polling gave up after too many failures in a row.
    Stale,
}

/// A polling controller.
#[derive(Clone, Debug, PartialEq, Eq)]
pub struct PollingController {
    interval_ms: u32,
    max_failures: usize,
    game_code: usize,
    running: bool,
    in_flight: bool,
    failures: usize,
    epoch: u64,
}

/// A controller as a mathematical value.
pub struct ControllerView {
    /// Milliseconds between two ticks.
    pub interval_ms: u32,
    /// Consecutive failures at which polling gives up.
    pub max_failures: usize,
    /// The code that is polled for.
    pub game_code: usize,
    /// Whether ticks are wanted.
    pub running: bool,
    /// Whether a relay call is under way.
    pub in_flight: bool,
    /// Failures since the last success or start.
    pub failures: usize,
    /// Number of the current polling session; tickets carry it.
    pub epoch: u64,
}

impl View for PollingController {
    type V = ControllerView;

    closed spec fn view(&self) -> ControllerView {
        ControllerView {
            interval_ms: self.interval_ms,
            max_failures: self.max_failures,
            game_code: self.game_code,
            running: self.running,
            in_flight: self.in_flight,
            failures: self.failures,
            epoch: self.epoch,
        }
    }
}

/// The number of the polling session that follows `epoch`.
pub open spec fn next_epoch(epoch: u64) -> u64 {
    if epoch == u64::MAX {
        0
    } else {
        (epoch + 1) as u64
    }
}

/// A result counts as a success when it carries a payload that is not empty.
pub open spec fn is_usable(result: RelayOutcome) -> bool {
    result matches RelayOutcome::Success(payload) && payload.len() > 0
}

/// The counter after one more failure; it stays at the largest number it can
/// hold.
pub open spec fn one_more(failures: usize) -> usize {
    if failures == usize::MAX {
        failures
    } else {
        (failures + 1) as usize
    }
}

/// An idle controller for `game_code`.
pub open spec fn idle(interval_ms: u32, max_failures: usize, game_code: usize) -> ControllerView {
    ControllerView {
        interval_ms,
        max_failures,
        game_code,
        running: false,
        in_flight: false,
        failures: 0,
        epoch: 0,
    }
}

/// A fresh polling session of `c`: running, nothing under way, no failure
/// counted, and tickets of earlier sessions void.
pub open spec fn fresh(c: ControllerView) -> ControllerView {
    ControllerView {
        running: true,
        in_flight: false,
        failures: 0,
        epoch: next_epoch(c.epoch),
        ..c
    }
}

/// `start`: nothing changes while running; else a fresh session begins.
pub open spec fn started(c: ControllerView) -> ControllerView {
    if c.running {
        c
    } else {
        fresh(c)
    }
}

/// `stop`: no ticks are wanted and no result is waited for.
pub open spec fn stopped(c: ControllerView) -> ControllerView {
    ControllerView { running: false, in_flight: false, ..c }
}

/// `retarget`: a fresh session for another code, whatever went before.
pub open spec fn retargeted(c: ControllerView, game_code: usize) -> ControllerView {
    fresh(ControllerView { game_code, ..c })
}

/// Whether a firing of the timer leads to a relay call.
pub open spec fn fires(c: ControllerView) -> bool {
    c.running && !c.in_flight
}

/// The action owed when the timer fires.
pub open spec fn timer_action(c: ControllerView) -> TickAction {
    if !c.running {
        TickAction::Cancel
    } else if c.in_flight {
        TickAction::Skip
    } else {
        TickAction::Fire { game_code: c.game_code, ticket: c.epoch }
    }
}

/// The controller after the timer fired.
pub open spec fn after_timer(c: ControllerView) -> ControllerView {
    if fires(c) {
        ControllerView { in_flight: true, ..c }
    } else {
        c
    }
}

/// Whether the controller waits for a result under `ticket`.
pub open spec fn awaits(c: ControllerView, ticket: u64) -> bool {
    c.running && c.in_flight && ticket == c.epoch
}

/// Whether a counter value has reached the threshold.
pub open spec fn exhausted(c: ControllerView, failures: usize) -> bool {
    failures >= c.max_failures
}

/// The controller after a result was reported under `ticket`.
pub open spec fn after_result(
    c: ControllerView,
    ticket: u64,
    result: RelayOutcome,
) -> ControllerView {
    if !awaits(c, ticket) {
        c
    } else if is_usable(result) {
        ControllerView { in_flight: false, failures: 0, ..c }
    } else {
        ControllerView {
            in_flight: false,
            failures: one_more(c.failures),
            running: !exhausted(c, one_more(c.failures)),
            ..c
        }
    }
}

/// What a result reported under `ticket` publishes.
pub open spec fn publication(
    c: ControllerView,
    ticket: u64,
    result: RelayOutcome,
) -> PublicationView {
    if !awaits(c, ticket) {
        PublicationView::Discarded
    } else {
        match result {
            RelayOutcome::Success(payload) if payload.len() > 0 => PublicationView::Payload(
                payload,
            ),
            _ => if exhausted(c, one_more(c.failures)) {
                PublicationView::Stopped
            } else {
                PublicationView::Unchanged
            },
        }
    }
}

/// What the user interface shows about the feed of `c`.
pub open spec fn feed_status(c: ControllerView) -> FeedStatus {
    if c.running {
        FeedStatus::Live
    } else if c.failures > 0 && exhausted(c, c.failures) {
        FeedStatus::Stale
    } else {
        FeedStatus::Idle
    }
}

/// One whole tick: the timer fires and the relay call that it asks for
/// reports `result`.
pub open spec fn after_tick(c: ControllerView, result: RelayOutcome) -> ControllerView {
    after_result(after_timer(c), c.epoch, result)
}

/// The controller after `n` whole ticks that all reported `result`.
pub open spec fn after_ticks(c: ControllerView, n: nat, result: RelayOutcome) -> ControllerView
    decreases n,
{
    if n == 0 {
        c
    } else {
        after_tick(after_ticks(c, (n - 1) as nat, result), result)
    }
}

/// How many of `n` timer firings, each followed by the report of `result`
/// where a call was made, lead to a relay call.
pub open spec fn calls_made(c: ControllerView, n: nat, result: RelayOutcome) -> nat
    decreases n,
{
    if n == 0 {
        0
    } else {
        let before = after_ticks(c, (n - 1) as nat, result);
        calls_made(c, (n - 1) as nat, result) + if fires(before) {
            1nat
        } else {
            0nat
        }
    }
}

impl PollingController {
    /// An idle controller for `game_code` that ticks every `interval_ms`
    /// milliseconds and gives up at `max_failures` failures in a row.
    pub fn new(interval_ms: u32, max_failures: usize, game_code: usize) -> (controller:
        PollingController)
        ensures
            controller@ == idle(interval_ms, max_failures, game_code),
    {
        PollingController {
            interval_ms,
            max_failures,
            game_code,
            running: false,
            in_flight: false,
            failures: 0,
            epoch: 0,
        }
    }

    /// An idle controller for `game_code` with the usual interval and
    /// threshold.
    pub fn with_defaults(game_code: usize) -> (controller: PollingController)
        ensures
            controller@ == idle(POLL_INTERVAL_MS, MAX_FAILURES, game_code),
    {
        PollingController::new(POLL_INTERVAL_MS, MAX_FAILURES, game_code)
    }

    /// Milliseconds between two ticks.
    pub fn interval_ms(&self) -> (interval: u32)
        ensures
            interval == self@.interval_ms,
    {
        self.interval_ms
    }

    /// Consecutive failures at which polling gives up.
    pub fn max_failures(&self) -> (max: usize)
        ensures
            max == self@.max_failures,
    {
        self.max_failures
    }

    /// The code that is polled for.
    pub fn game_code(&self) -> (code: usize)
        ensures
            code == self@.game_code,
    {
        self.game_code
    }

    /// Whether ticks are wanted.
    pub fn is_running(&self) -> (running: bool)
        ensures
            running == self@.running,
    {
        self.running
    }

    /// Failures since the last success or start.
    pub fn failures(&self) -> (failures: usize)
        ensures
            failures == self@.failures,
    {
        self.failures
    }

    /// What the user interface shows about the feed.
    pub fn status(&self) -> (status: FeedStatus)
        ensures
            status == feed_status(self@),
    {
        if self.running {
            FeedStatus::Live
        } else if self.failures > 0 && self.failures >= self.max_failures {
            FeedStatus::Stale
        } else {
            FeedStatus::Idle
        }
    }

    fn begin_session(&mut self)
        ensures
            final(self)@ == fresh(old(self)@),
    {
        self.running = true;
        self.in_flight = false;
        self.failures = 0;
        self.epoch = if self.epoch == u64::MAX {
            0
        } else {
            self.epoch + 1
        };
    }

    /// Starts polling. Does nothing while polling is running.
    pub fn start(&mut self)
        ensures
            final(self)@ == started(old(self)@),
    {
        if !self.running {
            self.begin_session();
        }
    }

    /// Stops polling at once. A relay call under way is left to finish; its
    /// result will be discarded.
    pub fn stop(&mut self)
        ensures
            final(self)@ == stopped(old(self)@),
    {
        self.running = false;
        self.in_flight = false;
    }

    /// Switches to another code and starts afresh: nothing counted for the
    /// old code carries over, and results still under way for it will be
    /// discarded.
    pub fn retarget(&mut self, game_code: usize)
        ensures
            final(self)@ == retargeted(old(self)@, game_code),
    {
        self.game_code = game_code;
        self.begin_session();
    }

    /// Reports that the timer fired, and says what to do about it.
    pub fn on_timer(&mut self) -> (action: TickAction)
        ensures
            action == timer_action(old(self)@),
            final(self)@ == after_timer(old(self)@),
    {
        if !self.running {
            TickAction::Cancel
        } else if self.in_flight {
            TickAction::Skip
        } else {
            self.in_flight = true;
            TickAction::Fire { game_code: self.game_code, ticket: self.epoch }
        }
    }

    /// Reports the result of the relay call made under `ticket`, and says
    /// what to publish.
    pub fn on_result(&mut self, ticket: u64, result: RelayResult) -> (published: Publication)
        ensures
            published@ == publication(old(self)@, ticket, result@),
            final(self)@ == after_result(old(self)@, ticket, result@),
    {
        if !(self.running && self.in_flight && ticket == self.epoch) {
            return Publication::Discarded;
        }
        self.in_flight = false;
        match result {
            RelayResult::Success(payload) if !payload.as_str().is_empty() => {
                self.failures = 0;
                Publication::Payload(payload)
            },
            _ => {
                if self.failures < usize::MAX {
                    self.failures = self.failures + 1;
                }
                if self.failures >= self.max_failures {
                    self.running = false;
                    Publication::Stopped
                } else {
                    Publication::Unchanged
                }
            },
        }
    }
}

/// What the user interface has on show: the last payload that was
/// published, and whether live updates have stopped since.
#[derive(Clone, Debug, PartialEq, Eq)]
pub struct LiveFeed {
    payload: Option<String>,
    stale: bool,
}

/// A feed as a mathematical value.
pub struct FeedView {
    /// The payload on show, if any was published yet.
    pub payload: Option<Seq<char>>,
    /// Whether the payload on show is marked as no longer updated.
    pub stale: bool,
}

impl View for LiveFeed {
    type V = FeedView;

    closed spec fn view(&self) -> FeedView {
        FeedView {
            payload: match self.payload {
                Some(payload) => Some(payload@),
                None => None,
            },
            stale: self.stale,
        }
    }
}

/// The feed after a publication: a payload replaces what is on show and is
/// fresh; a stop marks what is on show as stale; nothing else changes it.
pub open spec fn absorbed(feed: FeedView, published: PublicationView) -> FeedView {
    match published {
        PublicationView::Payload(payload) => FeedView { payload: Some(payload), stale: false },
        PublicationView::Stopped => FeedView { stale: true, ..feed },
        _ => feed,
    }
}

impl LiveFeed {
    /// A feed with nothing on show.
    pub fn new() -> (feed: LiveFeed)
        ensures
            feed@ == (FeedView { payload: None, stale: false }),
    {
        LiveFeed { payload: None, stale: false }
    }

    /// The payload on show, if any was published yet.
    pub fn payload(&self) -> (payload: Option<&String>)
        ensures
            match payload {
                Some(shown) => self@.payload == Some(shown@),
                None => self@.payload is None,
            },
    {
        self.payload.as_ref()
    }

    /// Whether the payload on show is marked as no longer updated.
    pub fn is_stale(&self) -> (stale: bool)
        ensures
            stale == self@.stale,
    {
        self.stale
    }

    /// Takes in what a reported result published.
    pub fn absorb(&mut self, published: Publication)
        ensures
            final(self)@ == absorbed(old(self)@, published@),
    {
        match published {
            Publication::Payload(payload) => {
                self.payload = Some(payload);
                self.stale = false;
            },
            Publication::Stopped => {
                self.stale = true;
            },
            _ => {},
        }
    }

    /// Takes note that polling was started again: what is on show stays on
    /// show and is no longer marked as stale.
    pub fn resume(&mut self)
        ensures
            final(self)@ == (FeedView { stale: false, ..old(self)@ }),
    {
        self.stale = false;
    }
}

/// A failure never takes the last payload off the screen: only a fresh
/// payload changes what is on show.
pub proof fn lemma_stale_but_present(feed: FeedView, published: PublicationView)
    requires
        !(published is Payload),
    ensures
        absorbed(feed, published).payload == feed.payload,
        absorbed(feed, published).stale == (feed.stale || published is Stopped),
{
}

/// The number of failures in a row at which a controller gives up: its
/// threshold, and one where the threshold is zero.
pub open spec fn give_up_after(c: ControllerView) -> nat {
    if c.max_failures == 0 {
        1
    } else {
        c.max_failures as nat
    }
}

/// A polling session that has just begun: running, nothing under way, no
/// failure counted.
pub open spec fn just_started(c: ControllerView) -> bool {
    c.running && !c.in_flight && c.failures == 0
}

/// Starting twice is starting once, and a start always leaves the controller
/// running.
pub proof fn lemma_start_idempotent(c: ControllerView)
    ensures
        started(c).running,
        started(started(c)) == started(c),
        !c.running ==> just_started(started(c)),
{
}

/// Stopping twice is stopping once, a stopped controller asks for its timer
/// to be cancelled, and it discards whatever is reported to it.
pub proof fn lemma_stop_idempotent(c: ControllerView, ticket: u64, result: RelayOutcome)
    ensures
        !stopped(c).running,
        stopped(stopped(c)) == stopped(c),
        timer_action(stopped(c)) == TickAction::Cancel,
        after_timer(stopped(c)) == stopped(c),
        after_result(stopped(c), ticket, result) == stopped(c),
        publication(stopped(c), ticket, result) == PublicationView::Discarded,
{
}

/// At most one relay call is under way: once the timer has led to a call,
/// further firings lead to none until that call has reported.
pub proof fn lemma_single_flight(c: ControllerView)
    requires
        fires(c),
    ensures
        timer_action(c) == (TickAction::Fire { game_code: c.game_code, ticket: c.epoch }),
        timer_action(after_timer(c)) == TickAction::Skip,
        after_timer(after_timer(c)) == after_timer(c),
        awaits(after_timer(c), c.epoch),
{
}

/// A success sets the counter to zero and publishes its payload, whatever
/// the counter held, and polling goes on.
pub proof fn lemma_success_resets(c: ControllerView, payload: Seq<char>)
    requires
        fires(c),
        payload.len() > 0,
    ensures
        after_tick(c, RelayOutcome::Success(payload)).failures == 0,
        after_tick(c, RelayOutcome::Success(payload)).running,
        !after_tick(c, RelayOutcome::Success(payload)).in_flight,
        publication(after_timer(c), c.epoch, RelayOutcome::Success(payload))
            == PublicationView::Payload(payload),
{
}

/// A failure adds one to the counter and publishes no payload.
pub proof fn lemma_failure_counts(c: ControllerView, result: RelayOutcome)
    requires
        fires(c),
        !is_usable(result),
    ensures
        after_tick(c, result).failures == one_more(c.failures),
        !after_tick(c, result).in_flight,
        after_tick(c, result).running == !exhausted(c, one_more(c.failures)),
        !(publication(after_timer(c), c.epoch, result) is Payload),
{
}

/// From the start of a polling session, `n` ticks that all fail leave the
/// counter at `n` and polling running while `n` is below the number at which
/// the controller gives up; from that number on polling has stopped with the
/// counter at that number.
pub proof fn lemma_failures_in_a_row(c: ControllerView, n: nat, result: RelayOutcome)
    requires
        just_started(c),
        !is_usable(result),
    ensures
        n < give_up_after(c) ==> just_started(
            ControllerView { failures: 0, ..after_ticks(c, n, result) },
        ) && after_ticks(c, n, result).failures == n,
        n >= give_up_after(c) ==> !after_ticks(c, n, result).running && after_ticks(
            c,
            n,
            result,
        ).failures == give_up_after(c),
        after_ticks(c, n, result).max_failures == c.max_failures,
        after_ticks(c, n, result).game_code == c.game_code,
        after_ticks(c, n, result).epoch == c.epoch,
    decreases n,
{
    if n > 0 {
        lemma_failures_in_a_row(c, (n - 1) as nat, result);
        let before = after_ticks(c, (n - 1) as nat, result);
        if n - 1 < give_up_after(c) {
            assert(fires(before));
            lemma_failure_counts(before, result);
        } else {
            assert(after_tick(before, result) == before);
        }
    }
}

/// The controller gives up at exactly the threshold: of `n` timer firings
/// that all end in failure, the first `give_up_after` lead to a relay call
/// and none after them does.
pub proof fn lemma_self_stop(c: ControllerView, n: nat, result: RelayOutcome)
    requires
        just_started(c),
        !is_usable(result),
    ensures
        calls_made(c, n, result) == if n <= give_up_after(c) {
            n
        } else {
            give_up_after(c)
        },
        after_ticks(c, n, result).running <==> n < give_up_after(c),
        n >= give_up_after(c) ==> timer_action(after_ticks(c, n, result)) == TickAction::Cancel
            && feed_status(after_ticks(c, n, result)) == FeedStatus::Stale,
    decreases n,
{
    lemma_failures_in_a_row(c, n, result);
    if n > 0 {
        lemma_self_stop(c, (n - 1) as nat, result);
        lemma_failures_in_a_row(c, (n - 1) as nat, result);
    }
}

/// Failures followed by one success: whatever number of failed ticks a
/// running session has seen, the counter is zero right after the success,
/// and polling goes on.
pub proof fn lemma_failures_then_success(
    c: ControllerView,
    n: nat,
    failure: RelayOutcome,
    payload: Seq<char>,
)
    requires
        just_started(c),
        !is_usable(failure),
        n < give_up_after(c),
        payload.len() > 0,
    ensures
        after_ticks(c, n, failure).failures == n,
        after_tick(after_ticks(c, n, failure), RelayOutcome::Success(payload)).failures == 0,
        after_tick(after_ticks(c, n, failure), RelayOutcome::Success(payload)).running,
{
    lemma_failures_in_a_row(c, n, failure);
    lemma_success_resets(after_ticks(c, n, failure), payload);
}

/// Switching to another code begins a session of its own: the counter is
/// zero whatever it held for the old code, polling runs for the new code,
/// and a result still under way for the old code is discarded without a
/// trace.
pub proof fn lemma_restart_isolation(
    c: ControllerView,
    game_code: usize,
    stale: RelayOutcome,
)
    ensures
        just_started(retargeted(c, game_code)),
        retargeted(c, game_code).game_code == game_code,
        retargeted(c, game_code).max_failures == c.max_failures,
        retargeted(c, game_code).interval_ms == c.interval_ms,
        !awaits(retargeted(c, game_code), c.epoch),
        after_result(retargeted(c, game_code), c.epoch, stale) == retargeted(c, game_code),
        publication(retargeted(c, game_code), c.epoch, stale) == PublicationView::Discarded,
        !awaits(after_timer(retargeted(c, game_code)), c.epoch),
{
}


} // verus!
