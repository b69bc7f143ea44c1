//! The acquisition cycle: six readouts formatted as two text lines and pushed
//! to the display.

use crate::bus::{
    command_events, init_events, print_events, BusEvent, CLEAR_SETTLE_MS, CMD_CLEAR, ROW0_BASE,
    ROW1_BASE,
};
use crate::controller::{
    advanced, lemma_observe_concat, lemma_observe_push, observe, resting, Observed,
};
use crate::lcd::{ControllerState, Lcd, LcdView};
use crate::protocol::{
    frame_latches, frame_ms, keeps_timing, lemma_command, lemma_print, text_latches,
};
use vstd::prelude::*;
use vstd::string::StringExecFns;
use vstd::utf8::encode_utf8;

verus! {

/// Pause between two acquisition cycles, in milliseconds.
pub const CADENCE_MS: u32 = 1000;

/// Time the start-up banner stays on the display, in milliseconds.
pub const BANNER_MS: u32 = 2000;

/// One channel's temperature as the display shows it.
#[derive(Debug, PartialEq, Eq)]
pub enum Readout {
    /// The sensor is disconnected; the temperature is infinite.
    Open,
    /// The temperature in Celsius, already rendered with one decimal place.
    Celsius(String),
}

impl Readout {
    /// The characters shown for this readout: `inf` for an open circuit,
    /// the rendered value otherwise.
    pub open spec fn shown(&self) -> Seq<char> {
        match self {
            Readout::Open => "inf"@,
            Readout::Celsius(value) => value@,
        }
    }

    /// The text shown for this readout.
    pub fn as_str(&self) -> (text: &str)
        ensures
            text@ == self.shown(),
    {
        match self {
            Readout::Open => "inf",
            Readout::Celsius(value) => value.as_str(),
        }
    }
}

/// The first display line: channels 1 to 3, each labelled, separated by
/// single spaces.
pub open spec fn first_line_text(a: &Readout, b: &Readout, c: &Readout) -> Seq<char> {
    "T1:"@ + a.shown() + " T2:"@ + b.shown() + " T3:"@ + c.shown()
}

/// The second display line: channels 4 to 6, each labelled, separated by
/// single spaces.
pub open spec fn second_line_text(a: &Readout, b: &Readout, c: &Readout) -> Seq<char> {
    "T4:"@ + a.shown() + " T5:"@ + b.shown() + " T6:"@ + c.shown()
}

/// The text shown while the panel starts up.
pub open spec fn banner_text() -> Seq<char> {
    "Wyre Innovations"@
}

/// What start-up puts on the bus: initialisation, the banner on the first
/// row, the banner time, a clear.
pub open spec fn setup_events() -> Seq<BusEvent> {
    init_events() + print_events(0, 0, encode_utf8(banner_text())) + seq![
        BusEvent::Wait { ms: BANNER_MS },
    ] + command_events(CMD_CLEAR)
}

/// What one acquisition cycle puts on the bus: a clear, the first line on
/// row 0, the second line on row 1, the cadence wait.
pub open spec fn cycle_events(readouts: Seq<Readout>) -> Seq<BusEvent>
    recommends
        readouts.len() == 6,
{
    command_events(CMD_CLEAR) + print_events(
        0,
        0,
        encode_utf8(first_line_text(&readouts[0], &readouts[1], &readouts[2])),
    ) + print_events(
        1,
        0,
        encode_utf8(second_line_text(&readouts[3], &readouts[4], &readouts[5])),
    ) + seq![BusEvent::Wait { ms: CADENCE_MS }]
}

fn labelled_line(
    label_a: &str,
    a: &Readout,
    label_b: &str,
    b: &Readout,
    label_c: &str,
    c: &Readout,
) -> (line: String)
    ensures
        line@ == label_a@ + a.shown() + label_b@ + b.shown() + label_c@ + c.shown(),
{
    let mut line = String::new();
    line.append(label_a);
    line.append(a.as_str());
    line.append(label_b);
    line.append(b.as_str());
    line.append(label_c);
    line.append(c.as_str());
    proof {
        assert(line@ =~= label_a@ + a.shown() + label_b@ + b.shown() + label_c@ + c.shown());
    }
    line
}

/// Formats the first display line from the readouts of channels 1 to 3.
pub fn first_line(a: &Readout, b: &Readout, c: &Readout) -> (line: String)
    ensures
        line@ == first_line_text(a, b, c),
{
    labelled_line("T1:", a, " T2:", b, " T3:", c)
}

/// Formats the second display line from the readouts of channels 4 to 6.
pub fn second_line(a: &Readout, b: &Readout, c: &Readout) -> (line: String)
    ensures
        line@ == second_line_text(a, b, c),
{
    labelled_line("T4:", a, " T5:", b, " T6:", c)
}

/// A second line whose last channel is open ends in `T6:inf`, whatever the
/// other two channels show.
pub proof fn lemma_open_last_channel_ends_line(a: &Readout, b: &Readout, c: &Readout)
    requires
        *c == Readout::Open,
    ensures
        second_line_text(a, b, c).len() >= 6,
        second_line_text(a, b, c).subrange(
            second_line_text(a, b, c).len() - 6,
            second_line_text(a, b, c).len() as int,
        ) == "T6:inf"@,
{
    reveal_strlit(" T6:");
    reveal_strlit("inf");
    reveal_strlit("T6:inf");
    let line = second_line_text(a, b, c);
    assert(line.subrange(line.len() - 6, line.len() as int) =~= "T6:inf"@);
}

/// One acquisition cycle on a resting bus hands the controller a clear, the
/// address of row 0 and the bytes of the first line, then the address of
/// row 1 and the bytes of the second line. Nothing is cut off, and the
/// cadence wait comes on top of the time the bytes take.
pub proof fn lemma_cycle_received(o: Observed, readouts: Seq<Readout>)
    requires
        resting(o),
        readouts.len() == 6,
    ensures
        advanced(
            o,
            observe(o, cycle_events(readouts)),
            frame_latches(false, CMD_CLEAR) + frame_latches(false, ROW0_BASE) + text_latches(
                encode_utf8(first_line_text(&readouts[0], &readouts[1], &readouts[2])),
            ) + frame_latches(false, ROW1_BASE) + text_latches(
                encode_utf8(second_line_text(&readouts[3], &readouts[4], &readouts[5])),
            ),
            3 * frame_ms() + CLEAR_SETTLE_MS + encode_utf8(
                first_line_text(&readouts[0], &readouts[1], &readouts[2]),
            ).len() * frame_ms() + encode_utf8(
                second_line_text(&readouts[3], &readouts[4], &readouts[5]),
            ).len() * frame_ms() + CADENCE_MS,
        ),
{
    let line1 = encode_utf8(first_line_text(&readouts[0], &readouts[1], &readouts[2]));
    let line2 = encode_utf8(second_line_text(&readouts[3], &readouts[4], &readouts[5]));
    let clear = command_events(CMD_CLEAR);
    let print1 = print_events(0, 0, line1);
    let print2 = print_events(1, 0, line2);
    let pause = seq![BusEvent::Wait { ms: CADENCE_MS }];
    lemma_command(o, CMD_CLEAR);
    let o1 = observe(o, clear);
    lemma_print(o1, 0, 0, line1);
    let o2 = observe(o1, print1);
    lemma_print(o2, 1, 0, line2);
    let o3 = observe(o2, print2);
    lemma_observe_push(o3, Seq::empty(), pause[0]);
    lemma_observe_concat(o, clear, print1);
    lemma_observe_concat(o, clear + print1, print2);
    lemma_observe_concat(o, clear + print1 + print2, pause);
    let r = observe(o, cycle_events(readouts));
    assert(r.latches =~= o.latches + (frame_latches(false, CMD_CLEAR) + frame_latches(
        false,
        ROW0_BASE,
    ) + text_latches(line1) + frame_latches(false, ROW1_BASE) + text_latches(line2)));
}

/// The thermometer: it owns the display driver and turns readouts into
/// display traffic.
pub struct App {
    lcd: Lcd,
}

impl View for App {
    type V = LcdView;

    closed spec fn view(&self) -> LcdView {
        self.lcd@
    }
}

impl App {
    /// A thermometer around the given display driver.
    pub fn new(lcd: Lcd) -> (app: App)
        ensures
            app@ == lcd@,
    {
        App { lcd }
    }

    /// Starts the panel: initialises the display, shows the banner on the
    /// first row for the banner time, then clears the display.
    pub fn setup(&mut self)
        ensures
            final(self)@.pending == old(self)@.pending + setup_events(),
            final(self)@.issued == old(self)@.issued + setup_events(),
            final(self)@.state == ControllerState::Configured,
            keeps_timing(final(self)@.issued),
    {
        self.lcd.init();
        self.lcd.print(0, 0, "Wyre Innovations");
        self.lcd.delay_ms(BANNER_MS);
        self.lcd.clear();
        proof {
            assert(self@.pending =~= old(self)@.pending + setup_events());
            assert(self@.issued =~= old(self)@.issued + setup_events());
        }
    }

    /// Runs one acquisition cycle on the readouts of channels 1 to 6, in
    /// that order: clears the display, prints both lines and waits for the
    /// cadence. The caller repeats this for every set of samples.
    pub fn run(&mut self, readouts: &[Readout; 6])
        ensures
            final(self)@.extends(old(self)@, cycle_events(readouts@)),
            keeps_timing(final(self)@.issued),
    {
        let line1 = first_line(&readouts[0], &readouts[1], &readouts[2]);
        let line2 = second_line(&readouts[3], &readouts[4], &readouts[5]);
        self.lcd.clear();
        self.lcd.print(0, 0, line1.as_str());
        self.lcd.print(1, 0, line2.as_str());
        self.lcd.delay_ms(CADENCE_MS);
        proof {
            assert(self@.pending =~= old(self)@.pending + cycle_events(readouts@));
            assert(self@.issued =~= old(self)@.issued + cycle_events(readouts@));
        }
    }

    /// The display driver.
    pub fn lcd(&self) -> (lcd: &Lcd)
        ensures
            lcd@ == self@,
    {
        &self.lcd
    }

    /// Hands the recorded events to the caller, oldest first, and empties the
    /// queue.
    pub fn take_pending(&mut self) -> (events: Vec<BusEvent>)
        ensures
            events@ == old(self)@.pending,
            final(self)@.pending == Seq::<BusEvent>::empty(),
            final(self)@.issued == old(self)@.issued,
            final(self)@.state == old(self)@.state,
            keeps_timing(final(self)@.issued),
    {
        self.lcd.take_pending()
    }
}

} // verus!
