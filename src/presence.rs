use vstd::prelude::*;

use crate::api::coinbase_pro::{ticker_endpoint, ticker_path, FetchError, Ticker};

verus! {

/// Seconds between two polls of the price shown as status.
pub const PRESENCE_INTERVAL_SECS: u64 = 10;

/// Stage of the status updater over the life of the process.
#[derive(Clone, Copy, Debug, PartialEq, Eq, Structural)]
pub enum Phase {
    /// Waiting for the platform to report that the connection is ready.
    Idle,
    /// Polling the price on every tick.
    Polling,
    /// Told to stop; no tick changes anything any more.
    Stopped,
}

/// Status text that shows `price` as the euro price of one bitcoin.
pub open spec fn status_text(price: Seq<char>) -> Seq<char> {
    "BTC @ "@ + price + " €"@
}

/// The price that a ticker request brought back, if it succeeded.
pub open spec fn fetched_price(fetched: Result<Ticker, FetchError>) -> Option<Seq<char>> {
    match fetched {
        Ok(t) => Some(t.price@),
        Err(_) => None,
    }
}

/// Abstract state of the status updater: its phase and the status it last set.
pub struct PresenceView {
    pub phase: Phase,
    pub status: Option<Seq<char>>,
}

impl PresenceView {
    /// Whether a readiness event in this state starts the polling loop.
    pub open spec fn starts_on_ready(self) -> bool {
        self.phase == Phase::Idle
    }

    /// State after a readiness event.
    pub open spec fn after_ready(self) -> PresenceView {
        if self.starts_on_ready() {
            PresenceView { phase: Phase::Polling, status: self.status }
        } else {
            self
        }
    }

    /// Status to set on a tick whose ticker request gave `fetched`, if any.
    pub open spec fn update_on_tick(self, fetched: Option<Seq<char>>) -> Option<Seq<char>> {
        if self.phase == Phase::Polling {
            match fetched {
                Some(p) => Some(status_text(p)),
                None => None,
            }
        } else {
            None
        }
    }

    /// State after a tick whose ticker request gave `fetched`.
    pub open spec fn after_tick(self, fetched: Option<Seq<char>>) -> PresenceView {
        match self.update_on_tick(fetched) {
            Some(s) => PresenceView { phase: self.phase, status: Some(s) },
            None => self,
        }
    }
}

/// State after a run of ticks, given the outcome of each in order.
pub open spec fn run_ticks(v: PresenceView, outcomes: Seq<Option<Seq<char>>>) -> PresenceView
    decreases outcomes.len(),
{
    if outcomes.len() == 0 {
        v
    } else {
        run_ticks(v, outcomes.drop_last()).after_tick(outcomes.last())
    }
}

/// Statuses set over a run of ticks, in the order in which they were set.
pub open spec fn updates_over(v: PresenceView, outcomes: Seq<Option<Seq<char>>>) -> Seq<Seq<char>>
    decreases outcomes.len(),
{
    if outcomes.len() == 0 {
        Seq::empty()
    } else {
        let before = updates_over(v, outcomes.drop_last());
        match run_ticks(v, outcomes.drop_last()).update_on_tick(outcomes.last()) {
            Some(s) => before.push(s),
            None => before,
        }
    }
}

/// Prices brought back by the successful requests among `outcomes`, in order.
pub open spec fn successful_prices(outcomes: Seq<Option<Seq<char>>>) -> Seq<Seq<char>>
    decreases outcomes.len(),
{
    if outcomes.len() == 0 {
        Seq::empty()
    } else {
        let before = successful_prices(outcomes.drop_last());
        match outcomes.last() {
            Some(p) => before.push(p),
            None => before,
        }
    }
}

/// Ticks never change the phase of the updater.
pub proof fn lemma_ticks_keep_phase(v: PresenceView, outcomes: Seq<Option<Seq<char>>>)
    ensures
        run_ticks(v, outcomes).phase == v.phase,
    decreases outcomes.len(),
{
    if outcomes.len() > 0 {
        lemma_ticks_keep_phase(v, outcomes.drop_last());
    }
}

/// While polling, a run of ticks sets the status once for each successful
/// request, in the order of the requests, and never for a failed one. The
/// status shown afterwards is that of the last success, or the one shown
/// before when none succeeded, and the loop is still polling.
pub proof fn lemma_ticks_set_status_in_order(v: PresenceView, outcomes: Seq<Option<Seq<char>>>)
    requires
        v.phase == Phase::Polling,
    ensures
        updates_over(v, outcomes) == successful_prices(outcomes).map_values(
            |p: Seq<char>| status_text(p),
        ),
        run_ticks(v, outcomes).phase == Phase::Polling,
        run_ticks(v, outcomes).status == if successful_prices(outcomes).len() == 0 {
            v.status
        } else {
            Some(status_text(successful_prices(outcomes).last()))
        },
    decreases outcomes.len(),
{
    lemma_ticks_keep_phase(v, outcomes);
    if outcomes.len() > 0 {
        let rest = outcomes.drop_last();
        lemma_ticks_set_status_in_order(v, rest);
        lemma_ticks_keep_phase(v, rest);
        let f = |p: Seq<char>| status_text(p);
        match outcomes.last() {
            Some(p) => {
                assert(successful_prices(outcomes) == successful_prices(rest).push(p));
                assert(successful_prices(outcomes).map_values(f) =~= successful_prices(
                    rest,
                ).map_values(f).push(status_text(p)));
            },
            None => {},
        }
    }
}

/// Of the readiness events of one process, only the first starts the polling
/// loop: once it has started, no later event starts it again, whatever ticks
/// came between.
pub proof fn lemma_ready_starts_once(v: PresenceView, between: Seq<Option<Seq<char>>>)
    ensures
        v.phase == Phase::Idle ==> v.starts_on_ready(),
        !run_ticks(v.after_ready(), between).starts_on_ready(),
{
    lemma_ticks_keep_phase(v.after_ready(), between);
}

/// Decisions of the task that keeps the price shown as the bot's status: when
/// the polling loop starts, and what each tick sets.
pub struct Presence {
    phase: Phase,
    status: Option<String>,
}

impl View for Presence {
    type V = PresenceView;

    closed spec fn view(&self) -> PresenceView {
        PresenceView {
            phase: self.phase,
            status: match self.status {
                Some(s) => Some(s@),
                None => None,
            },
        }
    }
}

/// Path polled for the price shown as status.
pub fn presence_endpoint() -> (r: String)
    ensures
        r@ == ticker_path("BTC-EUR"@),
{
    ticker_endpoint("BTC-EUR")
}

/// Builds the status text that shows `price`.
pub fn status_for(price: &str) -> (r: String)
    ensures
        r@ == status_text(price@),
{
    String::from_str("BTC @ ").concat(price).concat(" €")
}

impl Presence {
    /// An updater that has not yet seen the platform become ready.
    pub fn new() -> (r: Presence)
        ensures
            r@ == (PresenceView { phase: Phase::Idle, status: None }),
    {
        Presence { phase: Phase::Idle, status: None }
    }

    /// Records a readiness event; returns whether the polling loop is to be
    /// started now, which is the case for the first such event only.
    pub fn on_ready(&mut self) -> (start: bool)
        ensures
            start == old(self)@.starts_on_ready(),
            final(self)@ == old(self)@.after_ready(),
    {
        if self.phase == Phase::Idle {
            self.phase = Phase::Polling;
            true
        } else {
            false
        }
    }

    /// Records the outcome of one tick's ticker request; returns the status to
    /// set, if any. A failure leaves the status as it was.
    pub fn on_tick(&mut self, fetched: &Result<Ticker, FetchError>) -> (update: Option<String>)
        ensures
            match update {
                Some(s) => old(self)@.update_on_tick(fetched_price(*fetched)) == Some(s@),
                None => old(self)@.update_on_tick(fetched_price(*fetched)) is None,
            },
            final(self)@ == old(self)@.after_tick(fetched_price(*fetched)),
    {
        if self.phase != Phase::Polling {
            return None;
        }
        match fetched {
            Ok(ticker) => {
                let text = status_for(ticker.price.as_str());
                self.status = Some(text.clone());
                Some(text)
            },
            Err(_) => None,
        }
    }

    /// Asks the polling loop to end; later ticks change nothing.
    pub fn stop(&mut self)
        ensures
            final(self)@ == (PresenceView { phase: Phase::Stopped, status: old(self)@.status }),
    {
        self.phase = Phase::Stopped;
    }

    /// Whether the polling loop is running.
    pub fn is_polling(&self) -> (r: bool)
        ensures
            r == (self@.phase == Phase::Polling),
    {
        self.phase == Phase::Polling
    }

    /// The status last set, if any.
    pub fn status(&self) -> (r: Option<&str>)
        ensures
            match r {
                Some(s) => self@.status == Some(s@),
                None => self@.status is None,
            },
    {
        match &self.status {
            Some(s) => Some(s.as_str()),
            None => None,
        }
    }
}

} // verus!
