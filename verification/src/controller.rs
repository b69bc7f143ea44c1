//! The bus as the controller sees it: which nibbles a sequence of events
//! latches, whether the strobe timing is kept, and how long the sequence waits.

use crate::bus::{
    latch_events, present_events, strobe_events, BusEvent, Line, STROBE_HOLD_MS,
};
use vstd::prelude::*;

verus! {

/// The levels of the seven lines.
pub struct Pins {
    pub mode_select: bool,
    pub strobe: bool,
    pub data4: bool,
    pub data5: bool,
    pub data6: bool,
    pub data7: bool,
    pub backlight: bool,
}

/// A nibble as the controller sampled it.
pub struct Latch {
    /// Level of the mode-select line at the sampling edge: high for data.
    pub data_mode: bool,
    /// The four data lines at the sampling edge, `Data4` as bit 0.
    pub nibble: u8,
}

/// What an observer on the bus has seen so far.
pub struct Observed {
    /// Current levels of the lines.
    pub pins: Pins,
    /// The strobe has just changed level and its hold time has not passed.
    pub hold_due: bool,
    /// A strobe hold was cut short, or a signal line moved while the strobe
    /// was high.
    pub violated: bool,
    /// Every nibble sampled on a falling strobe edge, oldest first.
    pub latches: Seq<Latch>,
    /// Sum of all waits, in milliseconds.
    pub waited: int,
}

/// The lines the controller samples: mode-select and the four data lines.
pub open spec fn is_signal(line: Line) -> bool {
    line is ModeSelect || line is Data4 || line is Data5 || line is Data6 || line is Data7
}

/// The levels after one line has been driven.
pub open spec fn driven(p: Pins, line: Line, high: bool) -> Pins {
    match line {
        Line::ModeSelect => Pins { mode_select: high, ..p },
        Line::Strobe => Pins { strobe: high, ..p },
        Line::Data4 => Pins { data4: high, ..p },
        Line::Data5 => Pins { data5: high, ..p },
        Line::Data6 => Pins { data6: high, ..p },
        Line::Data7 => Pins { data7: high, ..p },
        Line::Backlight => Pins { backlight: high, ..p },
    }
}

/// The nibble that the data lines carry.
pub open spec fn presented(p: Pins) -> u8 {
    (if p.data4 { 1u8 } else { 0u8 }) | (if p.data5 { 2u8 } else { 0u8 }) | (if p.data6 {
        4u8
    } else {
        0u8
    }) | (if p.data7 { 8u8 } else { 0u8 })
}

/// The observer after one more event. A wait ends a pending hold, and breaks
/// the timing if it is shorter than the hold. A drive breaks the timing if a
/// hold is pending or if it moves a signal line under a high strobe; a
/// change of the strobe level starts a hold, and a falling strobe samples
/// the nibble on the bus.
pub open spec fn step(o: Observed, event: BusEvent) -> Observed {
    match event {
        BusEvent::Wait { ms } => Observed {
            hold_due: false,
            violated: o.violated || (o.hold_due && ms < STROBE_HOLD_MS),
            waited: o.waited + ms,
            ..o
        },
        BusEvent::Drive { line, high } => {
            let edge = line is Strobe && high != o.pins.strobe;
            Observed {
                pins: driven(o.pins, line, high),
                hold_due: edge,
                violated: o.violated || o.hold_due || (o.pins.strobe && is_signal(line)),
                latches: if edge && !high {
                    o.latches.push(
                        Latch { data_mode: o.pins.mode_select, nibble: presented(o.pins) },
                    )
                } else {
                    o.latches
                },
                waited: o.waited,
            }
        },
    }
}

/// The observer after a sequence of events.
pub open spec fn observe(o: Observed, events: Seq<BusEvent>) -> Observed
    decreases events.len(),
{
    if events.len() == 0 {
        o
    } else {
        step(observe(o, events.drop_last()), events.last())
    }
}

/// The bus is at rest: the timing is intact, no hold is pending and the
/// strobe is low.
pub open spec fn resting(o: Observed) -> bool {
    !o.violated && !o.hold_due && !o.pins.strobe
}

/// `after` is at rest and differs from `before` by the given latches and
/// wait, with the backlight untouched.
pub open spec fn advanced(before: Observed, after: Observed, latches: Seq<Latch>, ms: int) -> bool {
    &&& resting(after)
    &&& after.latches == before.latches + latches
    &&& after.waited == before.waited + ms
    &&& after.pins.backlight == before.pins.backlight
}

/// Observing an extended sequence is one more step.
pub proof fn lemma_observe_push(o: Observed, events: Seq<BusEvent>, event: BusEvent)
    ensures
        observe(o, events.push(event)) == step(observe(o, events), event),
{
    assert(events.push(event).drop_last() =~= events);
}

/// Observing a concatenation is observing its parts in turn.
pub proof fn lemma_observe_concat(o: Observed, first: Seq<BusEvent>, second: Seq<BusEvent>)
    ensures
        observe(o, first + second) == observe(observe(o, first), second),
    decreases second.len(),
{
    if second.len() == 0 {
        assert(first + second =~= first);
    } else {
        lemma_observe_concat(o, first, second.drop_last());
        assert((first + second).drop_last() =~= first + second.drop_last());
    }
}

/// Presenting a nibble on a resting bus puts its low four bits on the data
/// lines and changes nothing else.
pub proof fn lemma_present(o: Observed, nibble: u8)
    requires
        resting(o),
    ensures
        advanced(o, observe(o, present_events(nibble)), Seq::empty(), 0),
        observe(o, present_events(nibble)).pins.mode_select == o.pins.mode_select,
        presented(observe(o, present_events(nibble)).pins) == nibble & 0x0F,
{
    let e0 = BusEvent::Drive { line: Line::Data4, high: (nibble & 0x01) != 0 };
    let e1 = BusEvent::Drive { line: Line::Data5, high: (nibble & 0x02) != 0 };
    let e2 = BusEvent::Drive { line: Line::Data6, high: (nibble & 0x04) != 0 };
    let e3 = BusEvent::Drive { line: Line::Data7, high: (nibble & 0x08) != 0 };
    let s0 = Seq::<BusEvent>::empty();
    lemma_observe_push(o, s0, e0);
    lemma_observe_push(o, s0.push(e0), e1);
    lemma_observe_push(o, s0.push(e0).push(e1), e2);
    lemma_observe_push(o, s0.push(e0).push(e1).push(e2), e3);
    assert(present_events(nibble) =~= s0.push(e0).push(e1).push(e2).push(e3));
    let r = observe(o, present_events(nibble));
    assert(r.latches =~= o.latches + Seq::<Latch>::empty());
    assert((if (nibble & 0x01) != 0 { 1u8 } else { 0u8 }) | (if (nibble & 0x02) != 0 {
        2u8
    } else {
        0u8
    }) | (if (nibble & 0x04) != 0 { 4u8 } else { 0u8 }) | (if (nibble & 0x08) != 0 {
        8u8
    } else {
        0u8
    }) == nibble & 0x0F) by (bit_vector);
}

/// A strobe pulse on a resting bus samples the nibble on the data lines
/// once, keeps both holds and takes two hold times.
pub proof fn lemma_strobe(o: Observed)
    requires
        resting(o),
    ensures
        advanced(
            o,
            observe(o, strobe_events()),
            seq![Latch { data_mode: o.pins.mode_select, nibble: presented(o.pins) }],
            2 * STROBE_HOLD_MS,
        ),
        observe(o, strobe_events()).pins.mode_select == o.pins.mode_select,
{
    let e0 = BusEvent::Drive { line: Line::Strobe, high: true };
    let e1 = BusEvent::Wait { ms: STROBE_HOLD_MS };
    let e2 = BusEvent::Drive { line: Line::Strobe, high: false };
    let e3 = BusEvent::Wait { ms: STROBE_HOLD_MS };
    let s0 = Seq::<BusEvent>::empty();
    lemma_observe_push(o, s0, e0);
    lemma_observe_push(o, s0.push(e0), e1);
    lemma_observe_push(o, s0.push(e0).push(e1), e2);
    lemma_observe_push(o, s0.push(e0).push(e1).push(e2), e3);
    assert(strobe_events() =~= s0.push(e0).push(e1).push(e2).push(e3));
    let r = observe(o, strobe_events());
    assert(r.latches =~= o.latches + seq![
        Latch { data_mode: o.pins.mode_select, nibble: presented(o.pins) },
    ]);
}

/// A latch cycle on a resting bus hands the controller exactly one nibble,
/// the low four bits of the one given, in the mode the mode-select line
/// holds; it keeps the timing and leaves the bus at rest.
pub proof fn lemma_latch(o: Observed, nibble: u8)
    requires
        resting(o),
    ensures
        advanced(
            o,
            observe(o, latch_events(nibble)),
            seq![Latch { data_mode: o.pins.mode_select, nibble: nibble & 0x0F }],
            2 * STROBE_HOLD_MS,
        ),
        observe(o, latch_events(nibble)).pins.mode_select == o.pins.mode_select,
{
    lemma_present(o, nibble);
    let mid = observe(o, present_events(nibble));
    lemma_strobe(mid);
    lemma_observe_concat(o, present_events(nibble), strobe_events());
    let r = observe(o, latch_events(nibble));
    assert(r.latches =~= o.latches + seq![
        Latch { data_mode: o.pins.mode_select, nibble: nibble & 0x0F },
    ]);
}

} // verus!
