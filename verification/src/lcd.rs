//! The four-bit parallel-bus driver: command and data framing, the
//! initialisation handshake and positioned text output.

use crate::bus::{
    command_events, configure_events, data_events, frame_events, idle_events, init_events,
    latch_events, print_events, strobe_events, text_events, wake_events, BusEvent, Line,
    CLEAR_SETTLE_MS, CMD_CLEAR, CMD_DISPLAY_ON, CMD_ENTRY_MODE, CMD_FUNCTION_SET, FIRST_WAKE_MS,
    FOUR_BIT_NIBBLE, LAST_COLUMN, POWER_UP_MS, ROW0_BASE, ROW1_BASE, SECOND_WAKE_MS,
    STROBE_HOLD_MS, WAKE_NIBBLE,
};
use crate::protocol::{
    keeps_timing, lemma_timing_concat, lemma_timing_of_command, lemma_timing_of_data,
    lemma_timing_of_idle, lemma_timing_of_init, lemma_timing_of_wait,
};
use vstd::prelude::*;
use vstd::string::StringSliceAdditionalSpecFns;

verus! {

/// What the driver knows of the controller's interface state.
#[derive(Clone, Copy, Debug, PartialEq, Eq)]
pub enum ControllerState {
    /// Freshly powered: the controller may be in any mode.
    Unknown,
    /// The wake-up nibbles have forced the eight-bit interface.
    ForcingEightBit,
    /// The four-bit interface is on; bytes travel as two nibbles.
    FourBitMode,
    /// The display configuration has been applied.
    Configured,
}

/// The driver as contracts see it.
pub struct LcdView {
    /// Interface state of the controller.
    pub state: ControllerState,
    /// Events issued and not yet taken by the firmware, oldest first.
    pub pending: Seq<BusEvent>,
    /// Every event issued since the driver was made, oldest first.
    pub issued: Seq<BusEvent>,
}

impl LcdView {
    /// True when this view differs from `before` by `events` issued: they
    /// are appended to the queue and to the record of all that was issued,
    /// and the controller state is the same.
    pub open spec fn extends(self, before: LcdView, events: Seq<BusEvent>) -> bool {
        &&& self.pending == before.pending + events
        &&& self.issued == before.issued + events
        &&& self.state == before.state
    }
}

/// The record of everything a driver has issued. It only ever holds traffic
/// that keeps the strobe timing.
struct Record {
    events: Ghost<Seq<BusEvent>>,
}

impl Record {
    #[verifier::type_invariant]
    spec fn timing_is_kept(&self) -> bool {
        keeps_timing(self.events@)
    }

    fn new() -> (record: Record)
        ensures
            record.events@ == Seq::<BusEvent>::empty(),
    {
        Record { events: Ghost(Seq::empty()) }
    }

    fn extend(&mut self, Ghost(events): Ghost<Seq<BusEvent>>)
        requires
            keeps_timing(events),
        ensures
            final(self).events@ == old(self).events@ + events,
    {
        proof {
            use_type_invariant(&*self);
            lemma_timing_concat(self.events@, events);
        }
        self.events = Ghost(self.events@ + events);
    }
}

/// The display driver. It records what has to happen on the bus; the firmware
/// takes the recorded events and performs them in order.
pub struct Lcd {
    state: ControllerState,
    pending: Vec<BusEvent>,
    record: Record,
}

impl View for Lcd {
    type V = LcdView;

    closed spec fn view(&self) -> LcdView {
        LcdView { state: self.state, pending: self.pending@, issued: self.record.events@ }
    }
}

impl Lcd {
    /// True when `self` differs from `before` by `events` added to the
    /// queue and not yet recorded as issued.
    spec fn queued(&self, before: &Lcd, events: Seq<BusEvent>) -> bool {
        &&& self.pending@ == before.pending@ + events
        &&& self.record.events@ == before.record.events@
        &&& self.state == before.state
    }

    /// A driver for a controller in its power-on state, with every line
    /// driven to its idle level.
    pub fn new() -> (lcd: Lcd)
        ensures
            lcd@.state == ControllerState::Unknown,
            lcd@.pending == idle_events(),
            lcd@.issued == idle_events(),
            keeps_timing(lcd@.issued),
    {
        let mut lcd = Lcd {
            state: ControllerState::Unknown,
            pending: Vec::new(),
            record: Record::new(),
        };
        lcd.queue_drive(Line::ModeSelect, false);
        lcd.queue_drive(Line::Strobe, false);
        lcd.queue_drive(Line::Data4, false);
        lcd.queue_drive(Line::Data5, false);
        lcd.queue_drive(Line::Data6, false);
        lcd.queue_drive(Line::Data7, false);
        lcd.queue_drive(Line::Backlight, false);
        proof {
            assert(lcd.pending@ =~= idle_events());
            lemma_timing_of_idle();
        }
        lcd.commit(Ghost(idle_events()));
        proof {
            assert(lcd.record.events@ =~= idle_events());
        }
        lcd
    }

    /// Records `events`, which are in the queue already, as issued.
    fn commit(&mut self, Ghost(events): Ghost<Seq<BusEvent>>)
        requires
            keeps_timing(events),
        ensures
            final(self).pending@ == old(self).pending@,
            final(self).record.events@ == old(self).record.events@ + events,
            final(self).state == old(self).state,
            keeps_timing(final(self).record.events@),
    {
        self.record.extend(Ghost(events));
        proof {
            use_type_invariant(&self.record);
        }
    }

    fn queue_event(&mut self, event: BusEvent)
        ensures
            final(self).queued(old(self), seq![event]),
    {
        self.pending.push(event);
        proof {
            assert(self.pending@ =~= old(self).pending@ + seq![event]);
        }
    }

    fn queue_drive(&mut self, line: Line, high: bool)
        ensures
            final(self).queued(old(self), seq![BusEvent::Drive { line, high }]),
    {
        self.queue_event(BusEvent::Drive { line, high });
    }

    fn queue_wait(&mut self, ms: u32)
        ensures
            final(self).queued(old(self), seq![BusEvent::Wait { ms }]),
    {
        self.queue_event(BusEvent::Wait { ms });
    }

    /// Pulses the strobe line: high, hold, low, hold.
    fn pulse_enable(&mut self)
        ensures
            final(self).queued(old(self), strobe_events()),
    {
        self.queue_drive(Line::Strobe, true);
        self.queue_wait(STROBE_HOLD_MS);
        self.queue_drive(Line::Strobe, false);
        self.queue_wait(STROBE_HOLD_MS);
        proof {
            assert(self.pending@ =~= old(self).pending@ + strobe_events());
        }
    }

    /// Presents the low four bits of `nibble` on the data lines and latches
    /// them with one strobe pulse.
    fn write_4bits(&mut self, nibble: u8)
        ensures
            final(self).queued(old(self), latch_events(nibble)),
    {
        self.queue_drive(Line::Data4, (nibble & 0x01) != 0);
        self.queue_drive(Line::Data5, (nibble & 0x02) != 0);
        self.queue_drive(Line::Data6, (nibble & 0x04) != 0);
        self.queue_drive(Line::Data7, (nibble & 0x08) != 0);
        self.pulse_enable();
        proof {
            assert(self.pending@ =~= old(self).pending@ + latch_events(nibble));
        }
    }

    /// Queues a byte: the mode-select level, the high nibble, the low nibble.
    fn queue_frame(&mut self, data_mode: bool, byte: u8)
        ensures
            final(self).queued(old(self), frame_events(data_mode, byte)),
    {
        self.queue_drive(Line::ModeSelect, data_mode);
        self.write_4bits(byte >> 4);
        self.write_4bits(byte & 0x0F);
        proof {
            assert(self.pending@ =~= old(self).pending@ + frame_events(data_mode, byte));
        }
    }

    /// Queues a command byte, with the settle wait after a clear.
    fn queue_command(&mut self, cmd: u8)
        ensures
            final(self).queued(old(self), command_events(cmd)),
    {
        self.queue_frame(false, cmd);
        if cmd == CMD_CLEAR {
            self.queue_wait(CLEAR_SETTLE_MS);
        }
        proof {
            assert(self.pending@ =~= old(self).pending@ + command_events(cmd));
        }
    }

    /// Sends a command byte: mode-select low, high nibble, low nibble. A clear
    /// is followed by the settle wait; no other command is.
    pub fn command(&mut self, cmd: u8)
        ensures
            final(self)@.extends(old(self)@, command_events(cmd)),
            keeps_timing(final(self)@.issued),
    {
        self.queue_command(cmd);
        proof {
            lemma_timing_of_command(cmd);
        }
        self.commit(Ghost(command_events(cmd)));
    }

    /// Sends a data byte: mode-select high, high nibble, low nibble.
    pub fn data(&mut self, data: u8)
        ensures
            final(self)@.extends(old(self)@, data_events(data)),
            keeps_timing(final(self)@.issued),
    {
        self.queue_frame(true, data);
        proof {
            lemma_timing_of_data(data);
        }
        self.commit(Ghost(data_events(data)));
    }

    /// Wakes the controller: power-up settle, then the three nibbles that
    /// force the eight-bit interface whatever mode it was in.
    fn force_eight_bit(&mut self)
        ensures
            final(self).pending@ == old(self).pending@ + wake_events(),
            final(self).record.events@ == old(self).record.events@,
            final(self).state == ControllerState::ForcingEightBit,
    {
        self.queue_wait(POWER_UP_MS);
        self.write_4bits(WAKE_NIBBLE);
        self.queue_wait(FIRST_WAKE_MS);
        self.write_4bits(WAKE_NIBBLE);
        self.queue_wait(SECOND_WAKE_MS);
        self.write_4bits(WAKE_NIBBLE);
        self.state = ControllerState::ForcingEightBit;
        proof {
            assert(self.pending@ =~= old(self).pending@ + wake_events());
        }
    }

    /// Switches the woken controller to the four-bit interface.
    fn enter_four_bit(&mut self)
        ensures
            final(self).pending@ == old(self).pending@ + latch_events(FOUR_BIT_NIBBLE),
            final(self).record.events@ == old(self).record.events@,
            final(self).state == ControllerState::FourBitMode,
    {
        self.write_4bits(FOUR_BIT_NIBBLE);
        self.state = ControllerState::FourBitMode;
    }

    /// Applies the display configuration and turns the backlight on.
    fn configure(&mut self)
        ensures
            final(self).pending@ == old(self).pending@ + configure_events(),
            final(self).record.events@ == old(self).record.events@,
            final(self).state == ControllerState::Configured,
    {
        self.queue_command(CMD_FUNCTION_SET);
        self.queue_command(CMD_DISPLAY_ON);
        self.queue_command(CMD_CLEAR);
        self.queue_command(CMD_ENTRY_MODE);
        self.queue_drive(Line::Backlight, true);
        self.state = ControllerState::Configured;
        proof {
            assert(self.pending@ =~= old(self).pending@ + configure_events());
        }
    }

    /// Brings the controller from its unknown power-on state to a configured
    /// two-line display: the wake-up handshake, the switch to four-bit mode,
    /// the display configuration, and last the backlight.
    pub fn init(&mut self)
        ensures
            final(self)@.pending == old(self)@.pending + init_events(),
            final(self)@.issued == old(self)@.issued + init_events(),
            final(self)@.state == ControllerState::Configured,
            keeps_timing(final(self)@.issued),
    {
        self.force_eight_bit();
        self.enter_four_bit();
        self.configure();
        proof {
            assert(self.pending@ =~= old(self).pending@ + init_events());
            lemma_timing_of_init();
        }
        self.commit(Ghost(init_events()));
    }

    /// Sends each byte of `s` as a data byte, in order.
    pub fn send_string(&mut self, s: &str)
        ensures
            final(self)@.extends(old(self)@, text_events(s.spec_bytes())),
            keeps_timing(final(self)@.issued),
    {
        let bytes = s.as_bytes();
        let mut i: usize = 0;
        proof {
            use_type_invariant(&self.record);
            assert(self@.extends(old(self)@, text_events(bytes@.take(0)))) by {
                assert(self@.pending =~= old(self)@.pending + text_events(bytes@.take(0)));
                assert(self@.issued =~= old(self)@.issued + text_events(bytes@.take(0)));
            }
        }
        while i < bytes.len()
            invariant
                i <= bytes.len(),
                bytes@ == s.spec_bytes(),
                self@.extends(old(self)@, text_events(bytes@.take(i as int))),
                keeps_timing(self@.issued),
            decreases bytes.len() - i,
        {
            self.data(bytes[i]);
            proof {
                let done = bytes@.take(i as int);
                let next = bytes@.take(i + 1);
                assert(next.drop_last() =~= done);
                assert(next.last() == bytes@[i as int]);
                assert(self@.pending =~= old(self)@.pending + text_events(next));
                assert(self@.issued =~= old(self)@.issued + text_events(next));
            }
            i += 1;
        }
        proof {
            assert(bytes@.take(i as int) =~= bytes@);
        }
    }

    /// Writes `message` starting at the given row and column. Columns past
    /// the last one address the last one. For a row other than 0 or 1
    /// nothing is sent at all.
    pub fn print(&mut self, row: u8, col: u8, message: &str)
        ensures
            final(self)@.extends(old(self)@, print_events(row, col, message.spec_bytes())),
            keeps_timing(final(self)@.issued),
    {
        let col: u8 = if col > LAST_COLUMN {
            LAST_COLUMN
        } else {
            col
        };
        let cmd: u8 = if row == 0 {
            ROW0_BASE + col
        } else if row == 1 {
            ROW1_BASE + col
        } else {
            proof {
                use_type_invariant(&self.record);
                assert(self@.pending =~= old(self)@.pending + Seq::<BusEvent>::empty());
                assert(self@.issued =~= old(self)@.issued + Seq::<BusEvent>::empty());
            }
            return ;
        };
        self.command(cmd);
        self.send_string(message);
        proof {
            let events = print_events(row, col, message.spec_bytes());
            assert(self@.pending =~= old(self)@.pending + events);
            assert(self@.issued =~= old(self)@.issued + events);
        }
    }

    /// Clears the display and waits for the controller to settle.
    pub fn clear(&mut self)
        ensures
            final(self)@.extends(old(self)@, command_events(CMD_CLEAR)),
            keeps_timing(final(self)@.issued),
    {
        self.command(CMD_CLEAR);
    }

    /// Blocks for at least `delay` milliseconds.
    pub fn delay_ms(&mut self, delay: u32)
        ensures
            final(self)@.extends(old(self)@, seq![BusEvent::Wait { ms: delay }]),
            keeps_timing(final(self)@.issued),
    {
        self.queue_wait(delay);
        let ghost events = seq![BusEvent::Wait { ms: delay }];
        proof {
            lemma_timing_of_wait(delay);
        }
        self.commit(Ghost(events));
    }

    /// The controller's interface state.
    pub fn state(&self) -> (state: ControllerState)
        ensures
            state == self@.state,
    {
        self.state
    }

    /// True once the display configuration has been applied.
    pub fn is_configured(&self) -> (configured: bool)
        ensures
            configured == (self@.state == ControllerState::Configured),
    {
        match self.state {
            ControllerState::Configured => true,
            _ => false,
        }
    }

    /// Hands the queued events to the caller, oldest first, and empties the
    /// queue.
    pub fn take_pending(&mut self) -> (events: Vec<BusEvent>)
        ensures
            events@ == old(self)@.pending,
            final(self)@.pending == Seq::<BusEvent>::empty(),
            final(self)@.issued == old(self)@.issued,
            final(self)@.state == old(self)@.state,
            keeps_timing(final(self)@.issued),
    {
        proof {
            use_type_invariant(&self.record);
        }
        let mut events: Vec<BusEvent> = Vec::new();
        core::mem::swap(&mut self.pending, &mut events);
        events
    }
}

} // verus!
