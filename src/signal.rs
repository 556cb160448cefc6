//! Waiting for one asynchronous signal on the bus.
//!
//! The wait is a small state machine: register a match pattern, read incoming
//! items until one matches or the time budget runs out, then remove the
//! pattern. The caller performs each [`WaitAction`] and reports back with a
//! [`WaitEvent`]. Whatever happens after the pattern was registered, the wait
//! removes it before it finishes.

use vstd::prelude::*;

use crate::error::{BusError, ChromeOSError};

verus! {

/// The match rule that selects signals of `member` on `interface`.
pub open spec fn match_rule_spec(interface: Seq<char>, member: Seq<char>) -> Seq<char> {
    "interface='"@ + interface + "',member='"@ + member + "'"@
}

/// Builds the match rule that selects signals of `member` on `interface`.
pub fn match_rule(interface: &str, member: &str) -> (r: String)
    ensures
        r@ == match_rule_spec(interface@, member@),
{
    let mut rule = String::from_str("interface='");
    rule.append(interface);
    rule.append("',member='");
    rule.append(member);
    rule.append("'");
    rule
}

/// One item read from the connection while waiting.
#[derive(Debug)]
pub enum BusItem {
    /// A signal, with the interface and member of its header where present and
    /// its byte-array argument where it could be read.
    Signal { interface: Option<String>, member: Option<String>, payload: Result<Vec<u8>, BusError> },
    /// No further item arrived before the time budget ran out.
    Nothing,
    /// Any other kind of message.
    Other,
}

/// What the caller reports after performing a [`WaitAction`].
#[derive(Debug)]
pub enum WaitEvent {
    /// The outcome of registering the match rule.
    MatchAdded(Result<(), BusError>),
    /// The next item from the connection.
    Item(BusItem),
    /// The outcome of removing the match rule.
    MatchRemoved(Result<(), BusError>),
}

/// What the caller must do next.
#[derive(PartialEq, Eq, Debug)]
pub enum WaitAction {
    /// Register this match rule on the connection.
    AddMatch(String),
    /// Read the next item from the connection.
    NextItem,
    /// Remove this match rule from the connection.
    RemoveMatch(String),
    /// The wait is over, with the signal's payload or an error.
    Finish(Result<Vec<u8>, ChromeOSError>),
}

/// Where a wait stands.
#[derive(Debug)]
pub enum WaitPhase {
    Subscribing,
    Listening,
    /// The outcome is known and waits for the match rule to be removed.
    Unsubscribing(Result<Vec<u8>, ChromeOSError>),
    Finished,
}

/// A wait for the signal `member` of `interface`.
pub struct SignalWait {
    interface: String,
    member: String,
    rule: String,
    phase: WaitPhase,
}

impl SignalWait {
    pub closed spec fn interface(&self) -> Seq<char> {
        self.interface@
    }

    pub closed spec fn member(&self) -> Seq<char> {
        self.member@
    }

    /// The match rule this wait registers.
    pub closed spec fn rule(&self) -> Seq<char> {
        self.rule@
    }

    pub closed spec fn phase(&self) -> WaitPhase {
        self.phase
    }

    pub open spec fn wf(&self) -> bool {
        self.rule() == match_rule_spec(self.interface(), self.member())
    }

    /// The match rule is registered on the connection.
    pub open spec fn holds_match(&self) -> bool {
        self.phase() is Listening || self.phase() is Unsubscribing
    }

    /// How many match rules this wait holds registered: one or none.
    pub open spec fn rules_held(&self) -> int {
        if self.holds_match() {
            1
        } else {
            0
        }
    }

    pub open spec fn is_finished(&self) -> bool {
        self.phase() is Finished
    }

    /// `event` answers the action that this wait asked for last.
    pub open spec fn expects(&self, event: WaitEvent) -> bool {
        match self.phase() {
            WaitPhase::Subscribing => event is MatchAdded,
            WaitPhase::Listening => event is Item,
            WaitPhase::Unsubscribing(_) => event is MatchRemoved,
            WaitPhase::Finished => false,
        }
    }

    /// An item that is the awaited signal.
    pub open spec fn matches(&self, item: BusItem) -> bool {
        match item {
            BusItem::Signal { interface: Some(i), member: Some(m), .. } => i@ == self.interface()
                && m@ == self.member(),
            _ => false,
        }
    }

    /// Starts a wait; the first action registers the match rule.
    pub fn new(interface: &str, member: &str) -> (r: (SignalWait, WaitAction))
        ensures
            r.0.wf(),
            r.0.interface() == interface@,
            r.0.member() == member@,
            r.0.phase() is Subscribing,
            r.1 matches WaitAction::AddMatch(rule) && rule@ == r.0.rule(),
    {
        let rule = match_rule(interface, member);
        let action = WaitAction::AddMatch(rule.clone());
        let wait = SignalWait {
            interface: String::from_str(interface),
            member: String::from_str(member),
            rule,
            phase: WaitPhase::Subscribing,
        };
        (wait, action)
    }

    /// Takes the caller's report and says what to do next.
    pub fn step(&mut self, event: WaitEvent) -> (r: WaitAction)
        requires
            old(self).wf(),
            old(self).expects(event),
        ensures
            final(self).wf(),
            final(self).interface() == old(self).interface(),
            final(self).member() == old(self).member(),
            final(self).rule() == old(self).rule(),
            // The wait finishes only once it holds no match rule, and it lets
            // go of a rule only when the caller removed it.
            r is Finish ==> final(self).is_finished() && !final(self).holds_match(),
            final(self).rules_held() == old(self).rules_held() + rule_delta(event),
            old(self).holds_match() && !final(self).holds_match() ==> old(self).phase() is Unsubscribing
                && event is MatchRemoved,
            r matches WaitAction::RemoveMatch(rule) ==> rule@ == match_rule_spec(
                old(self).interface(),
                old(self).member(),
            ),
            // A failed registration ends the wait at once.
            old(self).phase() is Subscribing ==> match event {
                WaitEvent::MatchAdded(Ok(_)) => final(self).phase() is Listening && r is NextItem,
                WaitEvent::MatchAdded(Err(e)) => final(self).is_finished() && r
                    == WaitAction::Finish(Err(ChromeOSError::Bus(e))),
                _ => false,
            },
            // While listening, the wait reads on until the signal or the end of
            // the time budget, and then removes its rule.
            old(self).phase() is Listening ==> match event {
                WaitEvent::Item(item) => if old(self).matches(item) {
                    r matches WaitAction::RemoveMatch(rule) && rule@ == old(self).rule()
                        && final(self).phase() == WaitPhase::Unsubscribing(
                        match item {
                            BusItem::Signal { payload: Ok(p), .. } => Ok::<
                                Vec<u8>,
                                ChromeOSError,
                            >(p),
                            BusItem::Signal { payload: Err(e), .. } => Err(ChromeOSError::Bus(e)),
                            _ => Err(ChromeOSError::Bus(BusError::Timeout)),
                        },
                    )
                } else if item is Nothing {
                    r matches WaitAction::RemoveMatch(rule) && rule@ == old(self).rule()
                        && final(self).phase() == WaitPhase::Unsubscribing(
                        Err(ChromeOSError::Bus(BusError::Timeout)),
                    )
                } else {
                    r is NextItem && final(self).phase() is Listening
                },
                _ => false,
            },
            // Once the rule is removed, the outcome is handed out; a failure to
            // remove the rule is reported instead.
            old(self).phase() matches WaitPhase::Unsubscribing(outcome) ==> final(self).is_finished()
                && match event {
                WaitEvent::MatchRemoved(Ok(_)) => r == WaitAction::Finish(outcome),
                WaitEvent::MatchRemoved(Err(e)) => r == WaitAction::Finish(
                    Err(ChromeOSError::Bus(e)),
                ),
                _ => false,
            },
    {
        let mut phase = WaitPhase::Finished;
        std::mem::swap(&mut self.phase, &mut phase);
        match phase {
            WaitPhase::Subscribing => match event {
                WaitEvent::MatchAdded(Ok(())) => {
                    self.phase = WaitPhase::Listening;
                    WaitAction::NextItem
                },
                WaitEvent::MatchAdded(Err(e)) => WaitAction::Finish(Err(ChromeOSError::Bus(e))),
                _ => WaitAction::NextItem,
            },
            WaitPhase::Listening => match event {
                WaitEvent::Item(item) => {
                    let hit = self.is_awaited(&item);
                    if hit {
                        let outcome = match item {
                            BusItem::Signal { payload: Ok(p), .. } => Ok(p),
                            BusItem::Signal { payload: Err(e), .. } => Err(ChromeOSError::Bus(e)),
                            _ => Err(ChromeOSError::Bus(BusError::Timeout)),
                        };
                        self.phase = WaitPhase::Unsubscribing(outcome);
                        WaitAction::RemoveMatch(self.rule.clone())
                    } else if let BusItem::Nothing = item {
                        self.phase = WaitPhase::Unsubscribing(
                            Err(ChromeOSError::Bus(BusError::Timeout)),
                        );
                        WaitAction::RemoveMatch(self.rule.clone())
                    } else {
                        self.phase = WaitPhase::Listening;
                        WaitAction::NextItem
                    }
                },
                _ => WaitAction::NextItem,
            },
            WaitPhase::Unsubscribing(outcome) => match event {
                WaitEvent::MatchRemoved(Ok(())) => WaitAction::Finish(outcome),
                WaitEvent::MatchRemoved(Err(e)) => WaitAction::Finish(Err(ChromeOSError::Bus(e))),
                _ => WaitAction::NextItem,
            },
            WaitPhase::Finished => WaitAction::NextItem,
        }
    }

    /// Tells whether `item` is the awaited signal.
    fn is_awaited(&self, item: &BusItem) -> (r: bool)
        ensures
            r == self.matches(*item),
    {
        match item {
            BusItem::Signal { interface: Some(i), member: Some(m), .. } => *i == self.interface
                && *m == self.member,
            _ => false,
        }
    }
}

/// The time left, in milliseconds, of a budget of `timeout_ms` after
/// `elapsed_ms`; none once the budget is spent.
pub fn remaining_budget(timeout_ms: i32, elapsed_ms: u64) -> (r: Option<i32>)
    ensures
        r == (if (elapsed_ms as int) < (timeout_ms as int) {
            Some((timeout_ms as int - elapsed_ms as int) as i32)
        } else {
            None::<i32>
        }),
{
    if timeout_ms <= 0 || elapsed_ms >= timeout_ms as u64 {
        None
    } else {
        Some(timeout_ms - elapsed_ms as i32)
    }
}

/// How a reported event changes the number of match rules registered on the
/// connection: a successful registration adds one, a removal takes one away.
pub open spec fn rule_delta(event: WaitEvent) -> int {
    match event {
        WaitEvent::MatchAdded(Ok(_)) => 1,
        WaitEvent::MatchRemoved(_) => -1,
        _ => 0,
    }
}

/// The net number of match rules that `events` leave registered.
pub open spec fn net_rules(events: Seq<WaitEvent>) -> int
    decreases events.len(),
{
    if events.len() == 0 {
        0
    } else {
        net_rules(events.drop_last()) + rule_delta(events.last())
    }
}

/// The events of a trace of waits: `waits[i + 1]` is `waits[i]` after
/// `events[i]`, as [`SignalWait::step`] relates them.
pub open spec fn is_trace(waits: Seq<SignalWait>, events: Seq<WaitEvent>) -> bool {
    &&& waits.len() == events.len() + 1
    &&& forall|i: int|
        0 <= i < events.len() ==> #[trigger] waits[i + 1].rules_held() == waits[i].rules_held()
            + rule_delta(events[i])
}

/// Over any trace, the rules registered on the connection change by exactly
/// the rules the wait held at the end minus those it held at the start.
pub proof fn lemma_trace_rule_balance(waits: Seq<SignalWait>, events: Seq<WaitEvent>)
    requires
        is_trace(waits, events),
    ensures
        net_rules(events) == waits.last().rules_held() - waits[0].rules_held(),
    decreases events.len(),
{
    if events.len() > 0 {
        let n = events.len() - 1;
        assert(is_trace(waits.drop_last(), events.drop_last())) by {
            assert forall|i: int| 0 <= i < events.drop_last().len() implies #[trigger] waits.drop_last()[i
                + 1].rules_held() == waits.drop_last()[i].rules_held() + rule_delta(
                events.drop_last()[i],
            ) by {
                assert(waits[i + 1].rules_held() == waits[i].rules_held() + rule_delta(events[i]));
            }
        }
        lemma_trace_rule_balance(waits.drop_last(), events.drop_last());
        assert(waits[n + 1].rules_held() == waits[n].rules_held() + rule_delta(events[n]));
    }
}

proof fn lemma_net_rules_append(a: Seq<WaitEvent>, b: Seq<WaitEvent>)
    ensures
        net_rules(a + b) == net_rules(a) + net_rules(b),
    decreases b.len(),
{
    if b.len() > 0 {
        assert((a + b).drop_last() =~= a + b.drop_last());
        assert((a + b).last() == b.last());
        lemma_net_rules_append(a, b.drop_last());
    }
}

/// Waits never accumulate match rules: two waits run one after the other,
/// each from its start to its end, whatever ended them (the signal, the time
/// budget, an unreadable payload, a bus failure), leave the connection with
/// the rules it had before the first.
pub proof fn lemma_sequential_waits_leave_no_rules(
    first: Seq<SignalWait>,
    first_events: Seq<WaitEvent>,
    second: Seq<SignalWait>,
    second_events: Seq<WaitEvent>,
)
    requires
        is_trace(first, first_events),
        first[0].phase() is Subscribing,
        first.last().is_finished(),
        is_trace(second, second_events),
        second[0].phase() is Subscribing,
        second.last().is_finished(),
    ensures
        net_rules(first_events + second_events) == 0,
{
    lemma_trace_rule_balance(first, first_events);
    lemma_trace_rule_balance(second, second_events);
    lemma_net_rules_append(first_events, second_events);
}

} // verus!
