//! Whole conversations: what the driver issues over a run of events.

use vstd::prelude::*;
use crate::address::Address;
use crate::protocol::{ActionView, Event, Phase, Session, Stage};
use crate::reading::{humidity_field, temperature_field};
use crate::status::busy_in;
use crate::timing::{cycles_in, POLL_MILLIS, SETTLE_MILLIS};

verus! {

/// Feeds the events to the driver one after the other. Returns the state it
/// ends in and the actions it issued, one per event.
pub open spec fn run(session: Session, events: Seq<Event>) -> (Session, Seq<ActionView>)
    decreases events.len(),
{
    if events.len() == 0 {
        (session, Seq::empty())
    } else {
        let (next, action) = session.step(events[0]);
        let (last, actions) = run(next, events.drop_first());
        (last, seq![action] + actions)
    }
}

/// What a caller reports while the sensor is busy: each status byte, and
/// after each the end of the pause that the driver asked for.
pub open spec fn busy_events(statuses: Seq<u8>) -> Seq<Event>
    decreases statuses.len(),
{
    if statuses.len() == 0 {
        Seq::empty()
    } else {
        seq![Event::Status(statuses[0]), Event::Done] + busy_events(statuses.drop_first())
    }
}

/// What the driver issues while the sensor is busy: in each round a pause,
/// then another status read.
pub open spec fn busy_actions(session: Session, rounds: nat) -> Seq<ActionView>
    decreases rounds,
{
    if rounds == 0 {
        Seq::empty()
    } else {
        seq![
            ActionView::Delay { cycles: cycles_in(session.sys_clock, POLL_MILLIS) },
            ActionView::ReadStatus { address: session.address.wire() },
        ] + busy_actions(session, (rounds - 1) as nat)
    }
}

/// Every status byte has its busy bit set.
pub open spec fn all_busy(statuses: Seq<u8>) -> bool {
    forall|i: int| 0 <= i < statuses.len() ==> busy_in(#[trigger] statuses[i])
}

/// The number of waits among the actions.
pub open spec fn delays(actions: Seq<ActionView>) -> nat
    decreases actions.len(),
{
    if actions.len() == 0 {
        0
    } else if actions[0] is Delay {
        1 + delays(actions.drop_first())
    } else {
        delays(actions.drop_first())
    }
}

/// The messages that the actions write to the bus, in order.
pub open spec fn writes(actions: Seq<ActionView>) -> Seq<Seq<u8>>
    decreases actions.len(),
{
    if actions.len() == 0 {
        Seq::empty()
    } else {
        match actions[0] {
            ActionView::Write { bytes, .. } => seq![bytes] + writes(actions.drop_first()),
            _ => writes(actions.drop_first()),
        }
    }
}

/// Running over two event sequences in a row is running over the first, then
/// over the second from where the first ended.
pub proof fn lemma_run_concat(session: Session, first: Seq<Event>, second: Seq<Event>)
    ensures
        run(session, first + second).0 == run(run(session, first).0, second).0,
        run(session, first + second).1 == run(session, first).1 + run(
            run(session, first).0,
            second,
        ).1,
    decreases first.len(),
{
    if first.len() == 0 {
        assert(first + second =~= second);
        assert(run(session, first).1 + run(session, second).1 =~= run(session, second).1);
    } else {
        let next = session.step(first[0]).0;
        let action = session.step(first[0]).1;
        assert((first + second).drop_first() =~= first.drop_first() + second);
        lemma_run_concat(next, first.drop_first(), second);
        let middle = run(next, first.drop_first());
        assert(seq![action] + (middle.1 + run(middle.0, second).1) =~= (seq![action] + middle.1)
            + run(middle.0, second).1);
    }
}

/// A run over a single event is one step.
pub proof fn lemma_run_one(session: Session, event: Event)
    ensures
        run(session, seq![event]) == (session.step(event).0, seq![session.step(event).1]),
{
    let events = seq![event];
    assert(events.drop_first() =~= Seq::<Event>::empty());
    assert(run(session.step(event).0, events.drop_first()).1 =~= Seq::<ActionView>::empty());
    assert(seq![session.step(event).1] + Seq::<ActionView>::empty() =~= seq![
        session.step(event).1,
    ]);
}

/// While the sensor reports busy the driver stays in its poll loop: each busy
/// status costs one pause and one more status read, and nothing else.
pub proof fn lemma_busy_rounds(session: Session, stage: Stage, statuses: Seq<u8>)
    requires
        session.phase == Phase::Poll(stage),
        all_busy(statuses),
    ensures
        run(session, busy_events(statuses)) == (session, busy_actions(session, statuses.len())),
    decreases statuses.len(),
{
    if statuses.len() == 0 {
    } else {
        let round = seq![Event::Status(statuses[0]), Event::Done];
        let rest = statuses.drop_first();
        assert(busy_in(statuses[0]));
        assert(all_busy(rest)) by {
            assert forall|i: int| 0 <= i < rest.len() implies busy_in(#[trigger] rest[i]) by {
                assert(rest[i] == statuses[i + 1]);
            }
        }
        let paused = session.at(Phase::Backoff(stage));
        assert(session.step(round[0]) == (
            paused,
            ActionView::Delay { cycles: cycles_in(session.sys_clock, POLL_MILLIS) },
        ));
        assert(paused.step(round[1]) == (
            session,
            ActionView::ReadStatus { address: session.address.wire() },
        ));
        lemma_run_one(paused, round[1]);
        assert(round.drop_first() =~= seq![round[1]]);
        assert(run(session, round) == (
            session,
            seq![
                ActionView::Delay { cycles: cycles_in(session.sys_clock, POLL_MILLIS) },
                ActionView::ReadStatus { address: session.address.wire() },
            ],
        )) by {
            assert(seq![session.step(round[0]).1] + seq![paused.step(round[1]).1] =~= seq![
                ActionView::Delay { cycles: cycles_in(session.sys_clock, POLL_MILLIS) },
                ActionView::ReadStatus { address: session.address.wire() },
            ]);
        }
        lemma_busy_rounds(session, stage, rest);
        lemma_run_concat(session, round, busy_events(rest));
    }
}

/// The requests of the poll loop depend on the sensor's address and the
/// clock rate, not on the phase.
proof fn lemma_busy_actions_ignore_phase(one: Session, other: Session, rounds: nat)
    requires
        one.address == other.address,
        one.sys_clock == other.sys_clock,
    ensures
        busy_actions(one, rounds) == busy_actions(other, rounds),
    decreases rounds,
{
    if rounds > 0 {
        lemma_busy_actions_ignore_phase(one, other, (rounds - 1) as nat);
    }
}

/// What a caller reports over a complete handshake: the power-up wait, the
/// reset write and the settle time have ended; the sensor is busy for a while
/// and then not; the initialization write has ended; the sensor is busy for a
/// while and then not.
pub open spec fn handshake_events(
    reset_busy: Seq<u8>,
    reset_clear: u8,
    init_busy: Seq<u8>,
    init_clear: u8,
) -> Seq<Event> {
    seq![Event::Done, Event::Done, Event::Done] + busy_events(reset_busy) + seq![
        Event::Status(reset_clear),
        Event::Done,
    ] + busy_events(init_busy) + seq![Event::Status(init_clear)]
}

/// What the driver issues over a complete handshake, after the power-up wait
/// that it starts with.
pub open spec fn handshake_actions(
    session: Session,
    reset_rounds: nat,
    init_rounds: nat,
) -> Seq<ActionView> {
    let address = session.address.wire();
    seq![
        ActionView::Write { address, bytes: seq![0xBAu8] },
        ActionView::Delay { cycles: cycles_in(session.sys_clock, SETTLE_MILLIS) },
        ActionView::ReadStatus { address },
    ] + busy_actions(session, reset_rounds) + seq![
        ActionView::Write { address, bytes: seq![0xE1u8, 0x08u8, 0x00u8] },
        ActionView::ReadStatus { address },
    ] + busy_actions(session, init_rounds) + seq![ActionView::Ready]
}

/// The handshake, whatever the sensor's timing: the driver waits for
/// power-up, writes the soft reset, waits for the sensor to settle, polls
/// until the sensor is no longer busy, writes the initialization message,
/// polls again until the sensor is no longer busy, and is then ready.
pub proof fn lemma_handshake(
    address: Address,
    sys_clock: u32,
    reset_busy: Seq<u8>,
    reset_clear: u8,
    init_busy: Seq<u8>,
    init_clear: u8,
)
    requires
        all_busy(reset_busy),
        !busy_in(reset_clear),
        all_busy(init_busy),
        !busy_in(init_clear),
    ensures
        ({
            let start = Session::start(address, sys_clock);
            let events = handshake_events(reset_busy, reset_clear, init_busy, init_clear);
            &&& start.pending() == ActionView::Delay { cycles: cycles_in(sys_clock, SETTLE_MILLIS) }
            &&& run(start, events).0 == start.at(Phase::Idle)
            &&& run(start, events).1 == handshake_actions(
                start,
                reset_busy.len(),
                init_busy.len(),
            )
        }),
{
    let start = Session::start(address, sys_clock);
    let wire = address.wire();
    let opening = seq![Event::Done, Event::Done, Event::Done];
    let turn = seq![Event::Status(reset_clear), Event::Done];
    let closing = seq![Event::Status(init_clear)];
    let resetting = start.at(Phase::Poll(Stage::Reset));
    let calibrating = start.at(Phase::Poll(Stage::Calibrate));

    assert(run(start, opening) == (
        resetting,
        seq![
            ActionView::Write { address: wire, bytes: seq![0xBAu8] },
            ActionView::Delay { cycles: cycles_in(sys_clock, SETTLE_MILLIS) },
            ActionView::ReadStatus { address: wire },
        ],
    )) by {
        reveal_with_fuel(run, 4);
        assert(Stage::Reset.message() =~= seq![0xBAu8]);
        assert(run(start, opening).1 =~= seq![
            ActionView::Write { address: wire, bytes: seq![0xBAu8] },
            ActionView::Delay { cycles: cycles_in(sys_clock, SETTLE_MILLIS) },
            ActionView::ReadStatus { address: wire },
        ]);
    }
    lemma_busy_rounds(resetting, Stage::Reset, reset_busy);
    assert(run(resetting, turn) == (
        calibrating,
        seq![
            ActionView::Write { address: wire, bytes: seq![0xE1u8, 0x08u8, 0x00u8] },
            ActionView::ReadStatus { address: wire },
        ],
    )) by {
        reveal_with_fuel(run, 3);
        assert(Stage::Calibrate.message() =~= seq![0xE1u8, 0x08u8, 0x00u8]);
        assert(run(resetting, turn).1 =~= seq![
            ActionView::Write { address: wire, bytes: seq![0xE1u8, 0x08u8, 0x00u8] },
            ActionView::ReadStatus { address: wire },
        ]);
    }
    lemma_busy_rounds(calibrating, Stage::Calibrate, init_busy);
    lemma_run_one(calibrating, closing[0]);

    lemma_run_concat(start, opening, busy_events(reset_busy));
    lemma_run_concat(start, opening + busy_events(reset_busy), turn);
    lemma_run_concat(start, opening + busy_events(reset_busy) + turn, busy_events(init_busy));
    lemma_run_concat(
        start,
        opening + busy_events(reset_busy) + turn + busy_events(init_busy),
        closing,
    );
    assert(busy_actions(resetting, reset_busy.len()) == busy_actions(start, reset_busy.len()))
        by {
        lemma_busy_actions_ignore_phase(resetting, start, reset_busy.len());
    }
    assert(busy_actions(calibrating, init_busy.len()) == busy_actions(start, init_busy.len()))
        by {
        lemma_busy_actions_ignore_phase(calibrating, start, init_busy.len());
    }
}

/// The waits and the writes of two action sequences in a row are those of
/// the first followed by those of the second.
pub proof fn lemma_totals_concat(first: Seq<ActionView>, second: Seq<ActionView>)
    ensures
        delays(first + second) == delays(first) + delays(second),
        writes(first + second) == writes(first) + writes(second),
    decreases first.len(),
{
    if first.len() == 0 {
        assert(first + second =~= second);
        assert(writes(first) + writes(second) =~= writes(second));
    } else {
        assert((first + second).drop_first() =~= first.drop_first() + second);
        lemma_totals_concat(first.drop_first(), second);
        let rest = writes(first.drop_first());
        if first[0] is Write {
            let message = seq![first[0]->Write_bytes];
            assert(message + (rest + writes(second)) =~= (message + rest) + writes(second));
        }
    }
}

/// The poll loop waits once for every busy status and writes nothing.
pub proof fn lemma_busy_totals(session: Session, rounds: nat)
    ensures
        delays(busy_actions(session, rounds)) == rounds,
        writes(busy_actions(session, rounds)) == Seq::<Seq<u8>>::empty(),
    decreases rounds,
{
    if rounds > 0 {
        let round = seq![
            ActionView::Delay { cycles: cycles_in(session.sys_clock, POLL_MILLIS) },
            ActionView::ReadStatus { address: session.address.wire() },
        ];
        let rest = busy_actions(session, (rounds - 1) as nat);
        assert(delays(round) == 1 && writes(round) =~= Seq::<Seq<u8>>::empty()) by {
            reveal_with_fuel(delays, 3);
            reveal_with_fuel(writes, 3);
        }
        lemma_busy_totals(session, (rounds - 1) as nat);
        lemma_totals_concat(round, rest);
        assert(writes(round) + writes(rest) =~= Seq::<Seq<u8>>::empty());
    }
}

/// Over a complete handshake the driver writes the soft reset and then the
/// initialization message, and nothing else; after the power-up wait it asks
/// for one wait after the reset and for one wait per busy status.
pub proof fn lemma_handshake_totals(session: Session, reset_rounds: nat, init_rounds: nat)
    ensures
        delays(handshake_actions(session, reset_rounds, init_rounds)) == 1 + reset_rounds
            + init_rounds,
        writes(handshake_actions(session, reset_rounds, init_rounds)) == seq![
            seq![0xBAu8],
            seq![0xE1u8, 0x08u8, 0x00u8],
        ],
{
    let address = session.address.wire();
    let opening = seq![
        ActionView::Write { address, bytes: seq![0xBAu8] },
        ActionView::Delay { cycles: cycles_in(session.sys_clock, SETTLE_MILLIS) },
        ActionView::ReadStatus { address },
    ];
    let turn = seq![
        ActionView::Write { address, bytes: seq![0xE1u8, 0x08u8, 0x00u8] },
        ActionView::ReadStatus { address },
    ];
    let closing = seq![ActionView::Ready];
    let first_loop = busy_actions(session, reset_rounds);
    let second_loop = busy_actions(session, init_rounds);
    assert(delays(opening) == 1 && writes(opening) =~= seq![seq![0xBAu8]]) by {
        reveal_with_fuel(delays, 4);
        reveal_with_fuel(writes, 4);
    }
    assert(delays(turn) == 0 && writes(turn) =~= seq![seq![0xE1u8, 0x08u8, 0x00u8]]) by {
        reveal_with_fuel(delays, 3);
        reveal_with_fuel(writes, 3);
    }
    assert(delays(closing) == 0 && writes(closing) =~= Seq::<Seq<u8>>::empty()) by {
        reveal_with_fuel(delays, 2);
        reveal_with_fuel(writes, 2);
    }
    lemma_busy_totals(session, reset_rounds);
    lemma_busy_totals(session, init_rounds);
    lemma_totals_concat(opening, first_loop);
    lemma_totals_concat(opening + first_loop, turn);
    lemma_totals_concat(opening + first_loop + turn, second_loop);
    lemma_totals_concat(opening + first_loop + turn + second_loop, closing);
    assert(writes(handshake_actions(session, reset_rounds, init_rounds)) =~= seq![
        seq![0xBAu8],
        seq![0xE1u8, 0x08u8, 0x00u8],
    ]);
}

/// What a caller reports over a complete measurement: the trigger write has
/// ended; the sensor is busy for a while and then not; the response frame.
pub open spec fn measurement_events(busy: Seq<u8>, clear: u8, frame: [u8; 6]) -> Seq<Event> {
    seq![Event::Done] + busy_events(busy) + seq![Event::Status(clear), Event::Frame(frame)]
}

/// What the driver issues over a complete measurement, after the trigger
/// write that it starts with.
pub open spec fn measurement_actions(session: Session, rounds: nat, frame: Seq<u8>) -> Seq<
    ActionView,
> {
    let address = session.address.wire();
    seq![ActionView::ReadStatus { address }] + busy_actions(session, rounds) + seq![
        ActionView::ReadFrame { address },
        ActionView::Report {
            humidity: humidity_field(frame),
            temperature: temperature_field(frame),
        },
    ]
}

/// A measurement, whatever the sensor's timing: once initialized the driver
/// writes the trigger message, polls until the sensor is no longer busy,
/// reads the response frame, reports the two fields of that frame, and is
/// idle again.
pub proof fn lemma_measurement(session: Session, busy: Seq<u8>, clear: u8, frame: [u8; 6])
    requires
        session.phase.initialized(),
        all_busy(busy),
        !busy_in(clear),
    ensures
        ({
            let begun = session.triggered();
            let events = measurement_events(busy, clear, frame);
            &&& begun.pending() == ActionView::Write {
                address: session.address.wire(),
                bytes: seq![0xACu8, 0x33u8, 0x00u8],
            }
            &&& run(begun, events).0 == session.at(Phase::Idle)
            &&& run(begun, events).1 == measurement_actions(session, busy.len(), frame@)
        }),
{
    let begun = session.triggered();
    let wire = session.address.wire();
    let opening = seq![Event::Done];
    let closing = seq![Event::Status(clear), Event::Frame(frame)];
    let polling = session.at(Phase::Poll(Stage::Measure));

    assert(Stage::Measure.message() =~= seq![0xACu8, 0x33u8, 0x00u8]);
    lemma_run_one(begun, opening[0]);
    assert(begun.step(Event::Done) == (polling, ActionView::ReadStatus { address: wire }));
    lemma_busy_rounds(polling, Stage::Measure, busy);
    assert(run(polling, closing) == (
        session.at(Phase::Idle),
        seq![
            ActionView::ReadFrame { address: wire },
            ActionView::Report {
                humidity: humidity_field(frame@),
                temperature: temperature_field(frame@),
            },
        ],
    )) by {
        reveal_with_fuel(run, 3);
        assert(run(polling, closing).1 =~= seq![
            ActionView::ReadFrame { address: wire },
            ActionView::Report {
                humidity: humidity_field(frame@),
                temperature: temperature_field(frame@),
            },
        ]);
    }
    lemma_run_concat(begun, opening, busy_events(busy));
    lemma_run_concat(begun, opening + busy_events(busy), closing);
    lemma_busy_actions_ignore_phase(polling, session, busy.len());
}

/// Over a complete measurement the driver writes nothing after the trigger
/// message, and asks for one wait per busy status.
pub proof fn lemma_measurement_totals(session: Session, rounds: nat, frame: Seq<u8>)
    ensures
        delays(measurement_actions(session, rounds, frame)) == rounds,
        writes(measurement_actions(session, rounds, frame)) == Seq::<Seq<u8>>::empty(),
{
    let address = session.address.wire();
    let opening = seq![ActionView::ReadStatus { address }];
    let closing = seq![
        ActionView::ReadFrame { address },
        ActionView::Report {
            humidity: humidity_field(frame),
            temperature: temperature_field(frame),
        },
    ];
    let polls = busy_actions(session, rounds);
    assert(delays(opening) == 0 && writes(opening) =~= Seq::<Seq<u8>>::empty()) by {
        reveal_with_fuel(delays, 2);
        reveal_with_fuel(writes, 2);
    }
    assert(delays(closing) == 0 && writes(closing) =~= Seq::<Seq<u8>>::empty()) by {
        reveal_with_fuel(delays, 3);
        reveal_with_fuel(writes, 3);
    }
    lemma_busy_totals(session, rounds);
    lemma_totals_concat(opening, polls);
    lemma_totals_concat(opening + polls, closing);
    assert(writes(measurement_actions(session, rounds, frame)) =~= Seq::<Seq<u8>>::empty());
}

} // verus!
