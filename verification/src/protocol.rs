//! What the controller receives from each driver operation: the nibbles it
//! latches, in order, the time the operation takes, and that the strobe
//! timing is kept throughout.

use crate::bus::{
    clamp_column, command_events, configure_events, data_events, frame_events, idle_events,
    init_events,
    latch_events, position_command, print_events, settle_events, text_events, wake_events,
    BusEvent, Line, CLEAR_SETTLE_MS, CMD_CLEAR, CMD_DISPLAY_ON, CMD_ENTRY_MODE, CMD_FUNCTION_SET,
    FIRST_WAKE_MS, FOUR_BIT_NIBBLE, LAST_COLUMN, POWER_UP_MS, SECOND_WAKE_MS, STROBE_HOLD_MS,
    WAKE_NIBBLE,
};
use crate::controller::{
    advanced, lemma_latch, lemma_observe_concat, lemma_observe_push, observe, resting, step,
    Latch, Observed, Pins,
};
use vstd::prelude::*;

verus! {

/// The two latches that carry a byte: high nibble first.
pub open spec fn frame_latches(data_mode: bool, byte: u8) -> Seq<Latch> {
    seq![
        Latch { data_mode, nibble: byte >> 4 },
        Latch { data_mode, nibble: byte & 0x0F },
    ]
}

/// The latches that carry a text: two data latches per byte, in order.
pub open spec fn text_latches(bytes: Seq<u8>) -> Seq<Latch>
    decreases bytes.len(),
{
    if bytes.len() == 0 {
        Seq::empty()
    } else {
        text_latches(bytes.drop_last()) + frame_latches(true, bytes.last())
    }
}

/// Time on the bus of one byte: two latch cycles of two holds each.
pub open spec fn frame_ms() -> int {
    4 * STROBE_HOLD_MS
}

/// Settle time that follows a command: that of a clear, and none for any
/// other byte.
pub open spec fn settle_ms(byte: u8) -> int {
    if byte == CMD_CLEAR {
        CLEAR_SETTLE_MS as int
    } else {
        0
    }
}

/// The latches of the wake-up handshake and the mode switch: three wake-up
/// nibbles and the four-bit nibble, in whatever mode the mode-select line
/// was left.
pub open spec fn handshake_latches(data_mode: bool) -> Seq<Latch> {
    seq![
        Latch { data_mode, nibble: 0x3 },
        Latch { data_mode, nibble: 0x3 },
        Latch { data_mode, nibble: 0x3 },
        Latch { data_mode, nibble: 0x2 },
    ]
}

/// The latches of the display configuration: function set, display
/// control, clear and entry mode, each as a command byte.
pub open spec fn configure_latches() -> Seq<Latch> {
    frame_latches(false, 0x28) + frame_latches(false, 0x0C) + frame_latches(false, 0x01)
        + frame_latches(false, 0x06)
}

/// The two nibbles of a frame pair up to the byte again.
pub proof fn lemma_frame_pairs_up(data_mode: bool, byte: u8)
    ensures
        frame_latches(data_mode, byte).len() == 2,
        frame_latches(data_mode, byte)[0].nibble < 16,
        frame_latches(data_mode, byte)[1].nibble < 16,
        (frame_latches(data_mode, byte)[0].nibble << 4) | frame_latches(data_mode, byte)[1].nibble
            == byte,
{
    assert((byte >> 4) < 16 && (byte & 0x0F) < 16 && (((byte >> 4) << 4) | (byte & 0x0F)) == byte)
        by (bit_vector);
}

/// Idling the lines leaves every one of them low, whatever their levels
/// were. On a bus whose strobe was already low it latches nothing and leaves
/// the bus at rest.
pub proof fn lemma_idle(o: Observed)
    ensures
        observe(o, idle_events()).pins == (Pins {
            mode_select: false,
            strobe: false,
            data4: false,
            data5: false,
            data6: false,
            data7: false,
            backlight: false,
        }),
        resting(o) ==> resting(observe(o, idle_events())) && observe(o, idle_events()).latches
            == o.latches && observe(o, idle_events()).waited == o.waited,
{
    let e0 = BusEvent::Drive { line: Line::ModeSelect, high: false };
    let e1 = BusEvent::Drive { line: Line::Strobe, high: false };
    let e2 = BusEvent::Drive { line: Line::Data4, high: false };
    let e3 = BusEvent::Drive { line: Line::Data5, high: false };
    let e4 = BusEvent::Drive { line: Line::Data6, high: false };
    let e5 = BusEvent::Drive { line: Line::Data7, high: false };
    let e6 = BusEvent::Drive { line: Line::Backlight, high: false };
    let s1 = Seq::<BusEvent>::empty().push(e0);
    let s2 = s1.push(e1);
    let s3 = s2.push(e2);
    let s4 = s3.push(e3);
    let s5 = s4.push(e4);
    let s6 = s5.push(e5);
    lemma_observe_push(o, Seq::empty(), e0);
    lemma_observe_push(o, s1, e1);
    lemma_observe_push(o, s2, e2);
    lemma_observe_push(o, s3, e3);
    lemma_observe_push(o, s4, e4);
    lemma_observe_push(o, s5, e5);
    lemma_observe_push(o, s6, e6);
    assert(idle_events() =~= s6.push(e6));
}

proof fn lemma_observe_one(o: Observed, event: BusEvent)
    ensures
        observe(o, seq![event]) == step(o, event),
{
    lemma_observe_push(o, Seq::empty(), event);
}

/// A byte frame on a resting bus sets the mode-select line and hands the
/// controller the byte's two nibbles, high first; it takes the frame time
/// and keeps the strobe timing.
pub proof fn lemma_frame(o: Observed, data_mode: bool, byte: u8)
    requires
        resting(o),
    ensures
        advanced(
            o,
            observe(o, frame_events(data_mode, byte)),
            frame_latches(data_mode, byte),
            frame_ms(),
        ),
        observe(o, frame_events(data_mode, byte)).pins.mode_select == data_mode,
{
    let select = seq![BusEvent::Drive { line: Line::ModeSelect, high: data_mode }];
    lemma_observe_one(o, select[0]);
    let o1 = observe(o, select);
    lemma_latch(o1, byte >> 4);
    let o2 = observe(o1, latch_events(byte >> 4));
    lemma_latch(o2, byte & 0x0F);
    lemma_observe_concat(o, select, latch_events(byte >> 4));
    lemma_observe_concat(o, select + latch_events(byte >> 4), latch_events(byte & 0x0F));
    assert((byte >> 4) & 0x0F == byte >> 4 && (byte & 0x0F) & 0x0F == byte & 0x0F)
        by (bit_vector);
    let r = observe(o, frame_events(data_mode, byte));
    assert(r.latches =~= o.latches + frame_latches(data_mode, byte));
}

/// A command on a resting bus hands the controller its two nibbles in
/// command mode. It takes the frame time, and the settle time on top if and
/// only if the command is a clear.
pub proof fn lemma_command(o: Observed, byte: u8)
    requires
        resting(o),
    ensures
        advanced(
            o,
            observe(o, command_events(byte)),
            frame_latches(false, byte),
            frame_ms() + settle_ms(byte),
        ),
        observe(o, command_events(byte)).pins.mode_select == false,
{
    lemma_frame(o, false, byte);
    let o1 = observe(o, frame_events(false, byte));
    lemma_observe_concat(o, frame_events(false, byte), settle_events(byte));
    if byte == CMD_CLEAR {
        lemma_observe_one(o1, BusEvent::Wait { ms: CLEAR_SETTLE_MS });
    } else {
        assert(observe(o1, settle_events(byte)) == o1);
    }
}

/// A data byte on a resting bus hands the controller its two nibbles in
/// data mode and takes the frame time, whatever the byte.
pub proof fn lemma_data(o: Observed, byte: u8)
    requires
        resting(o),
    ensures
        advanced(o, observe(o, data_events(byte)), frame_latches(true, byte), frame_ms()),
        observe(o, data_events(byte)).pins.mode_select == true,
{
    lemma_frame(o, true, byte);
}

/// A text on a resting bus hands the controller two data nibbles per byte,
/// in the order of the bytes.
pub proof fn lemma_text(o: Observed, bytes: Seq<u8>)
    requires
        resting(o),
    ensures
        advanced(
            o,
            observe(o, text_events(bytes)),
            text_latches(bytes),
            bytes.len() * frame_ms(),
        ),
        text_latches(bytes).len() == 2 * bytes.len(),
    decreases bytes.len(),
{
    if bytes.len() == 0 {
        assert(observe(o, text_events(bytes)).latches =~= o.latches + text_latches(bytes));
    } else {
        let head = bytes.drop_last();
        lemma_text(o, head);
        let o1 = observe(o, text_events(head));
        lemma_data(o1, bytes.last());
        lemma_observe_concat(o, text_events(head), data_events(bytes.last()));
        let r = observe(o, text_events(bytes));
        assert(r.latches =~= o.latches + text_latches(bytes));
        assert(bytes.len() * frame_ms() == head.len() * frame_ms() + frame_ms())
            by (nonlinear_arith)
            requires
                bytes.len() == head.len() + 1,
        ;
    }
}

/// Printing to a row other than 0 or 1 puts nothing on the bus.
pub proof fn lemma_print_off_panel(row: u8, col: u8, bytes: Seq<u8>)
    requires
        row != 0,
        row != 1,
    ensures
        print_events(row, col, bytes) == Seq::<BusEvent>::empty(),
{
}

/// Every column from the last one on puts the same events on the bus as the
/// last column does.
pub proof fn lemma_print_clamps_column(row: u8, col: u8, bytes: Seq<u8>)
    requires
        col >= LAST_COLUMN,
    ensures
        print_events(row, col, bytes) == print_events(row, LAST_COLUMN, bytes),
{
}

/// Printing to a row of the panel hands the controller the address command
/// of the clamped position, then the text, and keeps the strobe timing.
pub proof fn lemma_print(o: Observed, row: u8, col: u8, bytes: Seq<u8>)
    requires
        resting(o),
        row == 0 || row == 1,
    ensures
        position_command(row, col) == Some(
            ((if row == 0 { 0x80int } else { 0xC0int }) + clamp_column(col)) as u8,
        ),
        advanced(
            o,
            observe(o, print_events(row, col, bytes)),
            frame_latches(false, position_command(row, col).unwrap()) + text_latches(bytes),
            frame_ms() + bytes.len() * frame_ms(),
        ),
{
    let cmd = position_command(row, col).unwrap();
    assert(cmd != CMD_CLEAR);
    lemma_command(o, cmd);
    let o1 = observe(o, command_events(cmd));
    lemma_text(o1, bytes);
    lemma_observe_concat(o, command_events(cmd), text_events(bytes));
    let r = observe(o, print_events(row, col, bytes));
    assert(r.latches =~= o.latches + (frame_latches(false, cmd) + text_latches(bytes)));
}

/// The wake-up handshake on a resting bus latches the wake-up nibble three
/// times, with the prescribed waits before and between.
pub proof fn lemma_wake(o: Observed)
    requires
        resting(o),
    ensures
        advanced(
            o,
            observe(o, wake_events()),
            seq![
                Latch { data_mode: o.pins.mode_select, nibble: 0x3 },
                Latch { data_mode: o.pins.mode_select, nibble: 0x3 },
                Latch { data_mode: o.pins.mode_select, nibble: 0x3 },
            ],
            POWER_UP_MS + FIRST_WAKE_MS + SECOND_WAKE_MS + 6 * STROBE_HOLD_MS,
        ),
        observe(o, wake_events()).pins.mode_select == o.pins.mode_select,
{
    let w0 = seq![BusEvent::Wait { ms: POWER_UP_MS }];
    let w1 = seq![BusEvent::Wait { ms: FIRST_WAKE_MS }];
    let w2 = seq![BusEvent::Wait { ms: SECOND_WAKE_MS }];
    let l = latch_events(WAKE_NIBBLE);
    lemma_observe_one(o, w0[0]);
    let o1 = observe(o, w0);
    lemma_latch(o1, WAKE_NIBBLE);
    let o2 = observe(o1, l);
    lemma_observe_one(o2, w1[0]);
    let o3 = observe(o2, w1);
    lemma_latch(o3, WAKE_NIBBLE);
    let o4 = observe(o3, l);
    lemma_observe_one(o4, w2[0]);
    let o5 = observe(o4, w2);
    lemma_latch(o5, WAKE_NIBBLE);
    lemma_observe_concat(o, w0, l);
    lemma_observe_concat(o, w0 + l, w1);
    lemma_observe_concat(o, w0 + l + w1, l);
    lemma_observe_concat(o, w0 + l + w1 + l, w2);
    lemma_observe_concat(o, w0 + l + w1 + l + w2, l);
    assert(WAKE_NIBBLE & 0x0F == 0x3) by (bit_vector);
    let r = observe(o, wake_events());
    assert(r.latches =~= o.latches + seq![
        Latch { data_mode: o.pins.mode_select, nibble: 0x3 },
        Latch { data_mode: o.pins.mode_select, nibble: 0x3 },
        Latch { data_mode: o.pins.mode_select, nibble: 0x3 },
    ]);
}

/// The display configuration on a resting bus hands the controller the
/// four configuration commands in order and turns the backlight on.
pub proof fn lemma_configure(o: Observed)
    requires
        resting(o),
    ensures
        resting(observe(o, configure_events())),
        observe(o, configure_events()).latches == o.latches + configure_latches(),
        observe(o, configure_events()).waited == o.waited + 4 * frame_ms() + CLEAR_SETTLE_MS,
        observe(o, configure_events()).pins.backlight,
        !observe(o, configure_events()).pins.mode_select,
{
    let c0 = command_events(CMD_FUNCTION_SET);
    let c1 = command_events(CMD_DISPLAY_ON);
    let c2 = command_events(CMD_CLEAR);
    let c3 = command_events(CMD_ENTRY_MODE);
    let light = seq![BusEvent::Drive { line: Line::Backlight, high: true }];
    lemma_command(o, CMD_FUNCTION_SET);
    let o1 = observe(o, c0);
    lemma_command(o1, CMD_DISPLAY_ON);
    let o2 = observe(o1, c1);
    lemma_command(o2, CMD_CLEAR);
    let o3 = observe(o2, c2);
    lemma_command(o3, CMD_ENTRY_MODE);
    let o4 = observe(o3, c3);
    lemma_observe_one(o4, light[0]);
    lemma_observe_concat(o, c0, c1);
    lemma_observe_concat(o, c0 + c1, c2);
    lemma_observe_concat(o, c0 + c1 + c2, c3);
    lemma_observe_concat(o, c0 + c1 + c2 + c3, light);
    let r = observe(o, configure_events());
    assert(r.latches =~= o.latches + configure_latches());
}

/// Initialisation on a resting bus takes twelve latch cycles: the nibbles
/// 3, 3, 3 and 2 one by one, then the commands `0x28`, `0x0C`, `0x01` and
/// `0x06` as two nibbles each. It keeps every wait and hold, and ends with
/// the bus at rest, the mode-select line low and the backlight on.
pub proof fn lemma_init(o: Observed)
    requires
        resting(o),
    ensures
        resting(observe(o, init_events())),
        observe(o, init_events()).latches == o.latches + handshake_latches(o.pins.mode_select)
            + configure_latches(),
        (handshake_latches(o.pins.mode_select) + configure_latches()).len() == 12,
        observe(o, init_events()).waited == o.waited + POWER_UP_MS + FIRST_WAKE_MS
            + SECOND_WAKE_MS + 8 * STROBE_HOLD_MS + 4 * frame_ms() + CLEAR_SETTLE_MS,
        observe(o, init_events()).pins.backlight,
        !observe(o, init_events()).pins.mode_select,
{
    lemma_wake(o);
    let o1 = observe(o, wake_events());
    lemma_latch(o1, FOUR_BIT_NIBBLE);
    let o2 = observe(o1, latch_events(FOUR_BIT_NIBBLE));
    lemma_configure(o2);
    lemma_observe_concat(o, wake_events(), latch_events(FOUR_BIT_NIBBLE));
    lemma_observe_concat(o, wake_events() + latch_events(FOUR_BIT_NIBBLE), configure_events());
    assert(FOUR_BIT_NIBBLE & 0x0F == 0x2) by (bit_vector);
    let r = observe(o, init_events());
    assert(r.latches =~= o.latches + handshake_latches(o.pins.mode_select) + configure_latches());
}

/// A driver's first traffic, idling and then initialisation, hands a
/// controller whose strobe was low the twelve nibbles of the
/// initialisation, every one of them in command mode.
pub proof fn lemma_power_on(o: Observed)
    requires
        resting(o),
    ensures
        resting(observe(o, idle_events() + init_events())),
        observe(o, idle_events() + init_events()).latches == o.latches + handshake_latches(false)
            + configure_latches(),
        observe(o, idle_events() + init_events()).pins.backlight,
{
    lemma_idle(o);
    lemma_init(observe(o, idle_events()));
    lemma_observe_concat(o, idle_events(), init_events());
}

/// The events keep the strobe timing wherever they start from a resting
/// bus: every strobe edge gets its hold, no signal line moves while the
/// strobe is high, and the bus is at rest again afterwards.
pub open spec fn keeps_timing(events: Seq<BusEvent>) -> bool {
    forall|o: Observed| resting(o) ==> resting(#[trigger] observe(o, events))
}

/// Events that keep the timing, followed by events that keep the timing,
/// keep the timing.
pub proof fn lemma_timing_concat(first: Seq<BusEvent>, second: Seq<BusEvent>)
    requires
        keeps_timing(first),
        keeps_timing(second),
    ensures
        keeps_timing(first + second),
{
    assert forall|o: Observed| resting(o) implies resting(
        #[trigger] observe(o, first + second),
    ) by {
        lemma_observe_concat(o, first, second);
        assert(resting(observe(o, first)));
    }
}

/// A wait of any length on a resting bus keeps the timing.
pub proof fn lemma_timing_of_wait(ms: u32)
    ensures
        keeps_timing(seq![BusEvent::Wait { ms }]),
{
    assert forall|o: Observed| resting(o) implies resting(
        #[trigger] observe(o, seq![BusEvent::Wait { ms }]),
    ) by {
        lemma_observe_one(o, BusEvent::Wait { ms });
    }
}

/// Idling the lines keeps the timing.
pub proof fn lemma_timing_of_idle()
    ensures
        keeps_timing(idle_events()),
{
    assert forall|o: Observed| resting(o) implies resting(#[trigger] observe(o, idle_events())) by {
        lemma_idle(o);
    }
}

/// Every command keeps the timing.
pub proof fn lemma_timing_of_command(byte: u8)
    ensures
        keeps_timing(command_events(byte)),
{
    assert forall|o: Observed| resting(o) implies resting(
        #[trigger] observe(o, command_events(byte)),
    ) by {
        lemma_command(o, byte);
    }
}

/// Every data byte keeps the timing.
pub proof fn lemma_timing_of_data(byte: u8)
    ensures
        keeps_timing(data_events(byte)),
{
    assert forall|o: Observed| resting(o) implies resting(
        #[trigger] observe(o, data_events(byte)),
    ) by {
        lemma_data(o, byte);
    }
}

/// Initialisation keeps the timing.
pub proof fn lemma_timing_of_init()
    ensures
        keeps_timing(init_events()),
{
    assert forall|o: Observed| resting(o) implies resting(#[trigger] observe(o, init_events())) by {
        lemma_init(o);
    }
}

} // verus!
