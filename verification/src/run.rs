//! Whole runs: the startup sequence fed with the events of a run, one after
//! the other.

use crate::bootstrap::{Bootstrap, BootstrapView};
use crate::config::BootstrapConfig;
use crate::diagnostics::{LogEvent, LogEventView};
use crate::protocol::{Event, EventView};
use vstd::prelude::*;

verus! {

/// What a run has come to: the state, what was logged, in order, and the
/// events that were accepted, in order.
pub ghost struct RunView {
    pub state: BootstrapView,
    pub log: Seq<LogEventView>,
    pub answered: Seq<EventView>,
}

/// The run that begins in `state` and is fed `events` in order.
pub open spec fn advance(state: BootstrapView, events: Seq<EventView>) -> RunView
    decreases events.len(),
{
    if events.len() == 0 {
        RunView { state, log: Seq::empty(), answered: Seq::empty() }
    } else {
        let before = advance(state, events.drop_last());
        let transition = before.state.step(events.last());
        RunView {
            state: transition.next,
            log: match transition.log {
                Some(event) => before.log.push(event),
                None => before.log,
            },
            answered: if transition.accepted {
                before.answered.push(events.last())
            } else {
                before.answered
            },
        }
    }
}

/// The run from the very start.
pub open spec fn run_of(config: BootstrapConfig, events: Seq<EventView>) -> RunView {
    advance(BootstrapView::start(config), events)
}

/// The views of a list of events, in order.
pub open spec fn events_view(events: Seq<Event>) -> Seq<EventView> {
    events.map_values(|event: Event| event@)
}

/// The views of a list of log events, in order.
pub open spec fn log_view(log: Seq<LogEvent>) -> Seq<LogEventView> {
    log.map_values(|event: LogEvent| event@)
}

/// What replaying a list of events gave.
#[derive(Debug, PartialEq, Eq)]
pub struct RunReport {
    /// The state after the last event.
    pub state: Bootstrap,
    /// What was logged, in order.
    pub log: Vec<LogEvent>,
    /// How many of the events answered the action that was pending when
    /// they came.
    pub accepted: usize,
}

impl RunReport {
    /// Whether the report tells of the run `run`.
    pub open spec fn tells(&self, run: RunView) -> bool {
        &&& self.state@ == run.state
        &&& log_view(self.log@) == run.log
        &&& self.accepted == run.answered.len()
    }
}

/// Feeding one more event continues the run by one step.
pub proof fn lemma_advance_one(state: BootstrapView, events: Seq<EventView>, event: EventView)
    ensures
        advance(state, events.push(event)).state == advance(state, events).state.step(event).next,
        advance(state, events.push(event)).log == match advance(state, events).state.step(
            event,
        ).log {
            Some(logged) => advance(state, events).log.push(logged),
            None => advance(state, events).log,
        },
        advance(state, events.push(event)).answered == if advance(state, events).state.step(
            event,
        ).accepted {
            advance(state, events).answered.push(event)
        } else {
            advance(state, events).answered
        },
{
    assert(events.push(event).drop_last() =~= events);
    assert(events.push(event).last() == event);
}

impl Bootstrap {
    /// Feeds the run the given events in order, as `step` would one by one,
    /// and collects what is logged on the way.
    pub fn replay(self, events: &Vec<Event>) -> (report: RunReport)
        ensures
            report.tells(advance(self@, events_view(events@))),
            report.state@.wf(),
    {
        proof {
            use_type_invariant(&self);
        }
        let ghost origin = self@;
        let ghost all = events_view(events@);
        let mut state = self;
        let mut log: Vec<LogEvent> = Vec::new();
        let mut accepted: usize = 0;
        let mut i: usize = 0;
        assert(all.take(0) =~= Seq::<EventView>::empty());
        assert(log_view(log@) =~= Seq::<LogEventView>::empty());
        while i < events.len()
            invariant
                i <= events.len(),
                all == events_view(events@),
                state@ == advance(origin, all.take(i as int)).state,
                log_view(log@) == advance(origin, all.take(i as int)).log,
                accepted == advance(origin, all.take(i as int)).answered.len(),
                accepted <= i,
                state@.wf(),
            decreases events.len() - i,
        {
            let event = events[i].clone();
            proof {
                lemma_advance_one(origin, all.take(i as int), event@);
                assert(all.take(i as int).push(event@) =~= all.take(i + 1));
            }
            let ghost before = log_view(log@);
            let transition = state.step(event);
            state = transition.next;
            match transition.log {
                Some(logged) => {
                    log.push(logged);
                    assert(log_view(log@) =~= before.push(logged@));
                },
                None => {},
            }
            if transition.accepted {
                accepted = accepted + 1;
            }
            i = i + 1;
        }
        assert(all.take(i as int) =~= all);
        RunReport { state, log, accepted }
    }
}

} // verus!
