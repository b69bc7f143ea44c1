//! The signal vocabulary of the panel bus and the event sequences that make up
//! each protocol step.

use vstd::prelude::*;

verus! {

/// One of the output lines that the driver owns.
#[derive(Clone, Copy, Debug, PartialEq, Eq)]
pub enum Line {
    /// Low selects the command register, high the data register.
    ModeSelect,
    /// The controller samples the data lines on a pulse of this line.
    Strobe,
    /// Bit 0 of the nibble on the bus.
    Data4,
    /// Bit 1 of the nibble on the bus.
    Data5,
    /// Bit 2 of the nibble on the bus.
    Data6,
    /// Bit 3 of the nibble on the bus.
    Data7,
    /// The panel's backlight, active high.
    Backlight,
}

/// One step that the firmware has to perform on the physical bus.
#[derive(Clone, Copy, Debug, PartialEq, Eq)]
pub enum BusEvent {
    /// Drive `line` to the given level.
    Drive { line: Line, high: bool },
    /// Block for at least `ms` milliseconds.
    Wait { ms: u32 },
}

/// Hold time of each phase of the strobe pulse, in milliseconds.
pub const STROBE_HOLD_MS: u32 = 1;

/// Settle time after power-up, in milliseconds.
pub const POWER_UP_MS: u32 = 20;

/// Wait after the first wake-up nibble, in milliseconds.
pub const FIRST_WAKE_MS: u32 = 5;

/// Wait after the second wake-up nibble, in milliseconds.
pub const SECOND_WAKE_MS: u32 = 1;

/// Extra time the controller needs to wipe its memory, in milliseconds.
pub const CLEAR_SETTLE_MS: u32 = 2;

/// Nibble that forces the controller into eight-bit mode.
pub const WAKE_NIBBLE: u8 = 0x03;

/// Nibble that switches an eight-bit controller to the four-bit interface.
pub const FOUR_BIT_NIBBLE: u8 = 0x02;

/// Function set: four-bit interface, two lines, 5x8 font.
pub const CMD_FUNCTION_SET: u8 = 0x28;

/// Display control: display on, cursor off, blink off.
pub const CMD_DISPLAY_ON: u8 = 0x0C;

/// Clear the display.
pub const CMD_CLEAR: u8 = 0x01;

/// Entry mode: address auto-increment, no shift.
pub const CMD_ENTRY_MODE: u8 = 0x06;

/// Address command base of the first display row.
pub const ROW0_BASE: u8 = 0x80;

/// Address command base of the second display row.
pub const ROW1_BASE: u8 = 0xC0;

/// Rightmost addressable column.
pub const LAST_COLUMN: u8 = 15;

/// The seven lines driven low, in the order the driver idles them.
pub open spec fn idle_events() -> Seq<BusEvent> {
    seq![
        BusEvent::Drive { line: Line::ModeSelect, high: false },
        BusEvent::Drive { line: Line::Strobe, high: false },
        BusEvent::Drive { line: Line::Data4, high: false },
        BusEvent::Drive { line: Line::Data5, high: false },
        BusEvent::Drive { line: Line::Data6, high: false },
        BusEvent::Drive { line: Line::Data7, high: false },
        BusEvent::Drive { line: Line::Backlight, high: false },
    ]
}

/// The four data lines set to the low four bits of `nibble`.
pub open spec fn present_events(nibble: u8) -> Seq<BusEvent> {
    seq![
        BusEvent::Drive { line: Line::Data4, high: (nibble & 0x01) != 0 },
        BusEvent::Drive { line: Line::Data5, high: (nibble & 0x02) != 0 },
        BusEvent::Drive { line: Line::Data6, high: (nibble & 0x04) != 0 },
        BusEvent::Drive { line: Line::Data7, high: (nibble & 0x08) != 0 },
    ]
}

/// One strobe pulse: high, hold, low, hold.
pub open spec fn strobe_events() -> Seq<BusEvent> {
    seq![
        BusEvent::Drive { line: Line::Strobe, high: true },
        BusEvent::Wait { ms: STROBE_HOLD_MS },
        BusEvent::Drive { line: Line::Strobe, high: false },
        BusEvent::Wait { ms: STROBE_HOLD_MS },
    ]
}

/// A full latch cycle: the nibble is presented, then strobed.
pub open spec fn latch_events(nibble: u8) -> Seq<BusEvent> {
    present_events(nibble) + strobe_events()
}

/// A byte on the bus: the mode-select level, then the high and the low nibble.
pub open spec fn frame_events(data_mode: bool, byte: u8) -> Seq<BusEvent> {
    seq![BusEvent::Drive { line: Line::ModeSelect, high: data_mode }] + latch_events(byte >> 4)
        + latch_events(byte & 0x0F)
}

/// The settle wait that follows a command: present after a clear only.
pub open spec fn settle_events(byte: u8) -> Seq<BusEvent> {
    if byte == CMD_CLEAR {
        seq![BusEvent::Wait { ms: CLEAR_SETTLE_MS }]
    } else {
        Seq::empty()
    }
}

/// A command byte, with the settle wait where the command is a clear.
pub open spec fn command_events(byte: u8) -> Seq<BusEvent> {
    frame_events(false, byte) + settle_events(byte)
}

/// A data byte.
pub open spec fn data_events(byte: u8) -> Seq<BusEvent> {
    frame_events(true, byte)
}

/// The data bytes of a text, first byte first.
pub open spec fn text_events(bytes: Seq<u8>) -> Seq<BusEvent>
    decreases bytes.len(),
{
    if bytes.len() == 0 {
        Seq::empty()
    } else {
        text_events(bytes.drop_last()) + data_events(bytes.last())
    }
}

/// The column that a requested column addresses: columns past the last one
/// address the last one.
pub open spec fn clamp_column(col: u8) -> u8 {
    if col > LAST_COLUMN {
        LAST_COLUMN
    } else {
        col
    }
}

/// The address command for a position, for the two rows the panel has.
pub open spec fn position_command(row: u8, col: u8) -> Option<u8> {
    if row == 0 {
        Some((ROW0_BASE + clamp_column(col)) as u8)
    } else if row == 1 {
        Some((ROW1_BASE + clamp_column(col)) as u8)
    } else {
        None
    }
}

/// A text written at a position: nothing at all for a row the panel lacks.
pub open spec fn print_events(row: u8, col: u8, bytes: Seq<u8>) -> Seq<BusEvent> {
    match position_command(row, col) {
        Some(cmd) => command_events(cmd) + text_events(bytes),
        None => Seq::empty(),
    }
}

/// The wake-up handshake: power-up settle, then three wake-up nibbles that
/// force eight-bit mode from whatever state the controller powered up in.
pub open spec fn wake_events() -> Seq<BusEvent> {
    seq![BusEvent::Wait { ms: POWER_UP_MS }] + latch_events(WAKE_NIBBLE)
        + seq![BusEvent::Wait { ms: FIRST_WAKE_MS }] + latch_events(WAKE_NIBBLE)
        + seq![BusEvent::Wait { ms: SECOND_WAKE_MS }] + latch_events(WAKE_NIBBLE)
}

/// The display configuration, sent as bytes once the four-bit interface is on,
/// followed by the backlight.
pub open spec fn configure_events() -> Seq<BusEvent> {
    command_events(CMD_FUNCTION_SET) + command_events(CMD_DISPLAY_ON) + command_events(CMD_CLEAR)
        + command_events(CMD_ENTRY_MODE) + seq![
        BusEvent::Drive { line: Line::Backlight, high: true },
    ]
}

/// The whole initialisation sequence.
pub open spec fn init_events() -> Seq<BusEvent> {
    wake_events() + latch_events(FOUR_BIT_NIBBLE) + configure_events()
}

} // verus!
