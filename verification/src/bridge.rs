use vstd::prelude::*;
use crate::hotkey::{Event, Hotkey, HotkeyState};

verus! {

/// A broadcast notification for the UI layer. Neither variant carries a
/// payload: the press starts audio capture, the release stops it.
#[derive(PartialEq, Eq, Structural, Clone, Copy, Debug)]
pub enum Signal {
    PttStart,
    PttStop,
}

/// What the bridge emits for one hotkey notification: a signal when the
/// event concerns the bound combination, nothing otherwise. A press maps to
/// `PttStart`, a release to `PttStop`; no other combination is recognised.
pub open spec fn spec_signal_for(bound: Hotkey, event: Event) -> Option<Signal> {
    if event.hotkey == bound {
        match event.state {
            HotkeyState::Pressed => Some(Signal::PttStart),
            HotkeyState::Released => Some(Signal::PttStop),
        }
    } else {
        None
    }
}

/// Translates one hotkey notification into the signal owed to the UI layer,
/// if any.
pub fn signal_for(bound: Hotkey, event: Event) -> (s: Option<Signal>)
    ensures
        s == spec_signal_for(bound, event),
{
    if event.hotkey == bound {
        match event.state {
            HotkeyState::Pressed => Some(Signal::PttStart),
            HotkeyState::Released => Some(Signal::PttStop),
        }
    } else {
        None
    }
}

/// The whole signal stream that a stream of hotkey events produces, in
/// order: one signal per matching event, nothing for the rest.
pub open spec fn signals_of(bound: Hotkey, events: Seq<Event>) -> Seq<Signal>
    decreases events.len(),
{
    if events.len() == 0 {
        Seq::empty()
    } else {
        match spec_signal_for(bound, events.last()) {
            Some(s) => signals_of(bound, events.drop_last()).push(s),
            None => signals_of(bound, events.drop_last()),
        }
    }
}

/// Runs the bridge over a whole stream of events and collects the signals,
/// in the order they would be emitted.
pub fn bridge_events(bound: Hotkey, events: &Vec<Event>) -> (signals: Vec<Signal>)
    ensures
        signals@ == signals_of(bound, events@),
{
    let mut signals: Vec<Signal> = Vec::new();
    let mut i: usize = 0;
    while i < events.len()
        invariant
            i <= events@.len(),
            signals@ == signals_of(bound, events@.take(i as int)),
        decreases events@.len() - i,
    {
        proof {
            assert(events@.take(i + 1).drop_last() =~= events@.take(i as int));
            assert(events@.take(i + 1).last() == events@[i as int]);
        }
        match signal_for(bound, events[i]) {
            Some(s) => signals.push(s),
            None => {},
        }
        i = i + 1;
    }
    proof {
        assert(events@.take(events@.len() as int) =~= events@);
    }
    signals
}

/// How many events of the stream press the bound combination.
pub open spec fn presses(bound: Hotkey, events: Seq<Event>) -> nat
    decreases events.len(),
{
    if events.len() == 0 {
        0
    } else {
        presses(bound, events.drop_last()) + (if events.last().hotkey == bound
            && events.last().state is Pressed {
            1nat
        } else {
            0nat
        })
    }
}

/// How many events of the stream release the bound combination.
pub open spec fn releases(bound: Hotkey, events: Seq<Event>) -> nat
    decreases events.len(),
{
    if events.len() == 0 {
        0
    } else {
        releases(bound, events.drop_last()) + (if events.last().hotkey == bound
            && events.last().state is Released {
            1nat
        } else {
            0nat
        })
    }
}

/// How many `ptt-start` signals the stream holds.
pub open spec fn starts(signals: Seq<Signal>) -> nat
    decreases signals.len(),
{
    if signals.len() == 0 {
        0
    } else {
        starts(signals.drop_last()) + (if signals.last() is PttStart {
            1nat
        } else {
            0nat
        })
    }
}

/// How many `ptt-stop` signals the stream holds.
pub open spec fn stops(signals: Seq<Signal>) -> nat
    decreases signals.len(),
{
    if signals.len() == 0 {
        0
    } else {
        stops(signals.drop_last()) + (if signals.last() is PttStop {
            1nat
        } else {
            0nat
        })
    }
}

/// Law: the bridge neither invents nor drops a signal. Its signal stream
/// holds exactly one `ptt-start` per press of the bound combination in the
/// event stream, and exactly one `ptt-stop` per release.
pub proof fn lemma_signal_counts(bound: Hotkey, events: Seq<Event>)
    ensures
        starts(signals_of(bound, events)) == presses(bound, events),
        stops(signals_of(bound, events)) == releases(bound, events),
    decreases events.len(),
{
    if events.len() > 0 {
        lemma_signal_counts(bound, events.drop_last());
        let head = signals_of(bound, events.drop_last());
        match spec_signal_for(bound, events.last()) {
            Some(s) => {
                assert(signals_of(bound, events) == head.push(s));
                assert(head.push(s).drop_last() =~= head);
                assert(head.push(s).last() == s);
            },
            None => {
                assert(signals_of(bound, events) == head);
            },
        }
    }
}

/// Law: a single uninterrupted press-hold-release gesture of the bound
/// combination produces exactly one `ptt-start` followed by exactly one
/// `ptt-stop`.
pub proof fn lemma_gesture(bound: Hotkey)
    ensures
        signals_of(
            bound,
            seq![
                (Event { hotkey: bound, state: HotkeyState::Pressed }),
                (Event { hotkey: bound, state: HotkeyState::Released }),
            ],
        ) =~= seq![Signal::PttStart, Signal::PttStop],
{
    let gesture = seq![
        (Event { hotkey: bound, state: HotkeyState::Pressed }),
        (Event { hotkey: bound, state: HotkeyState::Released }),
    ];
    assert(gesture.drop_last() =~= seq![(Event { hotkey: bound, state: HotkeyState::Pressed })]);
    assert(gesture.drop_last().drop_last() =~= Seq::<Event>::empty());
    assert(signals_of(bound, gesture.drop_last().drop_last()) =~= Seq::<Signal>::empty());
    assert(signals_of(bound, gesture.drop_last()) =~= seq![Signal::PttStart]);
}

/// Law: the bridge never invents a stop. Whenever every prefix of the event
/// stream holds at least as many presses of the bound combination as
/// releases — the OS guarantees that a press of a physical key precedes its
/// release — every prefix of the signal stream holds at least as many
/// `ptt-start` signals as `ptt-stop` signals: a release without a prior
/// press cannot yield a `ptt-stop` without a prior `ptt-start`.
pub proof fn lemma_no_stop_without_start(bound: Hotkey, events: Seq<Event>)
    requires
        forall|i: int|
            0 <= i <= events.len() ==> releases(bound, #[trigger] events.take(i)) <= presses(
                bound,
                events.take(i),
            ),
    ensures
        forall|j: int|
            0 <= j <= signals_of(bound, events).len() ==> stops(
                #[trigger] signals_of(bound, events).take(j),
            ) <= starts(signals_of(bound, events).take(j)),
    decreases events.len(),
{
    let sigs = signals_of(bound, events);
    if events.len() == 0 {
        assert forall|j: int| 0 <= j <= sigs.len() implies stops(#[trigger] sigs.take(j)) <= starts(
            sigs.take(j),
        ) by {
            assert(sigs.take(j) =~= sigs);
        }
    } else {
        let prior = events.drop_last();
        let prior_sigs = signals_of(bound, prior);
        assert forall|i: int| 0 <= i <= prior.len() implies releases(
            bound,
            #[trigger] prior.take(i),
        ) <= presses(bound, prior.take(i)) by {
            assert(prior.take(i) =~= events.take(i));
        }
        lemma_no_stop_without_start(bound, prior);
        lemma_signal_counts(bound, events);
        assert(events.take(events.len() as int) =~= events);
        assert(releases(bound, events) <= presses(bound, events));
        assert forall|j: int| 0 <= j <= sigs.len() implies stops(#[trigger] sigs.take(j)) <= starts(
            sigs.take(j),
        ) by {
            match spec_signal_for(bound, events.last()) {
                Some(s) => {
                    assert(sigs == prior_sigs.push(s));
                    if j <= prior_sigs.len() {
                        assert(sigs.take(j) =~= prior_sigs.take(j));
                        assert(stops(prior_sigs.take(j)) <= starts(prior_sigs.take(j)));
                    } else {
                        assert(j == sigs.len());
                        assert(sigs.take(j) =~= sigs);
                    }
                },
                None => {
                    assert(sigs == prior_sigs);
                    assert(sigs.take(j) =~= prior_sigs.take(j));
                    assert(stops(prior_sigs.take(j)) <= starts(prior_sigs.take(j)));
                },
            }
        }
    }
}

/// The wire name of a signal: what the UI layer subscribes to.
pub fn event_name(s: Signal) -> (name: &'static str)
    ensures
        s is PttStart ==> name@ == "ptt-start"@,
        s is PttStop ==> name@ == "ptt-stop"@,
{
    match s {
        Signal::PttStart => "ptt-start",
        Signal::PttStop => "ptt-stop",
    }
}

} // verus!
