use thermopanel::bus::{BusEvent, Line};
use thermopanel::lcd::{ControllerState, Lcd};

fn drive(line: Line, high: bool) -> BusEvent {
    BusEvent::Drive { line, high }
}

fn wait(ms: u32) -> BusEvent {
    BusEvent::Wait { ms }
}

fn latch(nibble: u8) -> Vec<BusEvent> {
    vec![
        drive(Line::Data4, nibble & 1 != 0),
        drive(Line::Data5, nibble & 2 != 0),
        drive(Line::Data6, nibble & 4 != 0),
        drive(Line::Data7, nibble & 8 != 0),
        drive(Line::Strobe, true),
        wait(1),
        drive(Line::Strobe, false),
        wait(1),
    ]
}

fn frame(data_mode: bool, byte: u8) -> Vec<BusEvent> {
    let mut events = vec![drive(Line::ModeSelect, data_mode)];
    events.extend(latch(byte >> 4));
    events.extend(latch(byte & 0x0F));
    events
}

fn command(byte: u8) -> Vec<BusEvent> {
    let mut events = frame(false, byte);
    if byte == 0x01 {
        events.push(wait(2));
    }
    events
}

/// A driver whose idle events have been taken already.
fn fresh() -> Lcd {
    let mut lcd = Lcd::new();
    lcd.take_pending();
    lcd
}

/// The nibbles a controller samples from the events, with the mode-select
/// level at each falling strobe edge. All lines start low.
fn sampled(events: &[BusEvent]) -> Vec<(bool, u8)> {
    let mut mode = false;
    let mut strobe = false;
    let mut bits = [false; 4];
    let mut out = Vec::new();
    for event in events {
        if let BusEvent::Drive { line, high } = *event {
            match line {
                Line::ModeSelect => mode = high,
                Line::Strobe => {
                    if strobe && !high {
                        let mut nibble = 0u8;
                        for (i, bit) in bits.iter().enumerate() {
                            if *bit {
                                nibble |= 1 << i;
                            }
                        }
                        out.push((mode, nibble));
                    }
                    strobe = high;
                }
                Line::Data4 => bits[0] = high,
                Line::Data5 => bits[1] = high,
                Line::Data6 => bits[2] = high,
                Line::Data7 => bits[3] = high,
                Line::Backlight => {}
            }
        }
    }
    out
}

fn total_wait(events: &[BusEvent]) -> u64 {
    let mut total = 0u64;
    for event in events {
        if let BusEvent::Wait { ms } = *event {
            total += u64::from(ms);
        }
    }
    total
}

#[test]
fn new_idles_every_line_low() {
    let mut lcd = Lcd::new();
    assert_eq!(lcd.state(), ControllerState::Unknown);
    assert!(!lcd.is_configured());
    assert_eq!(
        lcd.take_pending(),
        vec![
            drive(Line::ModeSelect, false),
            drive(Line::Strobe, false),
            drive(Line::Data4, false),
            drive(Line::Data5, false),
            drive(Line::Data6, false),
            drive(Line::Data7, false),
            drive(Line::Backlight, false),
        ]
    );
}

#[test]
fn take_pending_empties_the_queue() {
    let mut lcd = Lcd::new();
    assert_eq!(lcd.take_pending().len(), 7);
    assert!(lcd.take_pending().is_empty());
    lcd.data(0x41);
    assert_eq!(lcd.take_pending().len(), 17);
    assert!(lcd.take_pending().is_empty());
}

#[test]
fn events_queue_up_in_call_order() {
    let mut lcd = fresh();
    lcd.command(0x06);
    lcd.data(0x41);
    let mut expected = command(0x06);
    expected.extend(frame(true, 0x41));
    assert_eq!(lcd.take_pending(), expected);
}

#[test]
fn init_sends_the_handshake_then_the_configuration() {
    let mut lcd = fresh();
    lcd.init();
    let mut expected = vec![wait(20)];
    expected.extend(latch(0x3));
    expected.push(wait(5));
    expected.extend(latch(0x3));
    expected.push(wait(1));
    expected.extend(latch(0x3));
    expected.extend(latch(0x2));
    expected.extend(command(0x28));
    expected.extend(command(0x0C));
    expected.extend(command(0x01));
    expected.extend(command(0x06));
    expected.push(drive(Line::Backlight, true));
    assert_eq!(lcd.take_pending(), expected);
}

#[test]
fn init_takes_twelve_latch_cycles() {
    let mut lcd = fresh();
    lcd.init();
    let events = lcd.take_pending();
    let nibbles: Vec<u8> = sampled(&events).iter().map(|l| l.1).collect();
    assert_eq!(
        nibbles,
        vec![0x3, 0x3, 0x3, 0x2, 0x2, 0x8, 0x0, 0xC, 0x0, 0x1, 0x0, 0x6]
    );
    assert!(sampled(&events).iter().all(|l| !l.0));
    assert_eq!(total_wait(&events), 20 + 5 + 1 + 12 * 2 + 2);
}

#[test]
fn init_ends_configured_with_backlight_on() {
    let mut lcd = fresh();
    lcd.init();
    assert_eq!(lcd.state(), ControllerState::Configured);
    assert!(lcd.is_configured());
    let events = lcd.take_pending();
    assert_eq!(events.first(), Some(&wait(20)));
    assert_eq!(events.last(), Some(&drive(Line::Backlight, true)));
    let backlight: Vec<&BusEvent> = events
        .iter()
        .filter(|e| matches!(e, BusEvent::Drive { line: Line::Backlight, .. }))
        .collect();
    assert_eq!(backlight.len(), 1);
}

#[test]
fn command_frames_high_nibble_first() {
    let mut lcd = fresh();
    lcd.command(0x28);
    let events = lcd.take_pending();
    assert_eq!(events, command(0x28));
    assert_eq!(events.len(), 17);
    assert_eq!(events[0], drive(Line::ModeSelect, false));
    assert_eq!(sampled(&events), vec![(false, 0x2), (false, 0x8)]);
}

#[test]
fn data_frames_with_mode_select_high() {
    let mut lcd = fresh();
    lcd.data(0xA5);
    let events = lcd.take_pending();
    assert_eq!(events, frame(true, 0xA5));
    assert_eq!(events[0], drive(Line::ModeSelect, true));
    assert_eq!(sampled(&events), vec![(true, 0xA), (true, 0x5)]);
}

#[test]
fn latch_cycle_holds_strobe_high_then_low() {
    let mut lcd = fresh();
    lcd.data(0x0F);
    let events = lcd.take_pending();
    assert_eq!(
        events[1..9].to_vec(),
        vec![
            drive(Line::Data4, false),
            drive(Line::Data5, false),
            drive(Line::Data6, false),
            drive(Line::Data7, false),
            drive(Line::Strobe, true),
            wait(1),
            drive(Line::Strobe, false),
            wait(1),
        ]
    );
    assert_eq!(
        events[9..17].to_vec(),
        vec![
            drive(Line::Data4, true),
            drive(Line::Data5, true),
            drive(Line::Data6, true),
            drive(Line::Data7, true),
            drive(Line::Strobe, true),
            wait(1),
            drive(Line::Strobe, false),
            wait(1),
        ]
    );
}

#[test]
fn only_clear_gets_the_settle_wait() {
    for byte in 0..=255u8 {
        let mut lcd = fresh();
        lcd.command(byte);
        let events = lcd.take_pending();
        let extra = if byte == 0x01 { 2 } else { 0 };
        assert_eq!(total_wait(&events), 4 + extra, "command {byte:#04x}");
        assert_eq!(events, command(byte));

        lcd.data(byte);
        let events = lcd.take_pending();
        assert_eq!(total_wait(&events), 4, "data {byte:#04x}");
        assert_eq!(events.len(), 17);
    }
}

#[test]
fn clear_settle_wait_comes_last() {
    let mut lcd = fresh();
    lcd.command(0x01);
    let events = lcd.take_pending();
    assert_eq!(events.len(), 18);
    assert_eq!(events[17], wait(2));
}

#[test]
fn every_frame_pairs_up_to_its_byte() {
    for byte in 0..=255u8 {
        let mut lcd = fresh();
        lcd.data(byte);
        let latches = sampled(&lcd.take_pending());
        assert_eq!(latches.len(), 2);
        assert_eq!((latches[0].1 << 4) | latches[1].1, byte);
    }
}

#[test]
fn clear_is_the_clear_command() {
    let mut a = fresh();
    let mut b = fresh();
    a.clear();
    b.command(0x01);
    let events = a.take_pending();
    assert_eq!(events, b.take_pending());
    assert_eq!(events, command(0x01));
}

#[test]
fn send_string_sends_each_byte_in_order() {
    let mut lcd = fresh();
    lcd.send_string("Hi!");
    let mut expected = frame(true, b'H');
    expected.extend(frame(true, b'i'));
    expected.extend(frame(true, b'!'));
    assert_eq!(lcd.take_pending(), expected);
}

#[test]
fn send_string_of_nothing_sends_nothing() {
    let mut lcd = fresh();
    lcd.send_string("");
    assert!(lcd.take_pending().is_empty());
}

#[test]
fn send_string_sends_the_bytes_of_wide_characters() {
    let mut lcd = fresh();
    lcd.send_string("\u{e9}");
    let mut expected = frame(true, 0xC3);
    expected.extend(frame(true, 0xA9));
    assert_eq!(lcd.take_pending(), expected);
}

#[test]
fn print_addresses_row_zero_from_0x80() {
    let mut lcd = fresh();
    lcd.print(0, 0, "A");
    let mut expected = command(0x80);
    expected.extend(frame(true, b'A'));
    assert_eq!(lcd.take_pending(), expected);
}

#[test]
fn print_addresses_row_one_from_0xc0() {
    let mut lcd = fresh();
    lcd.print(1, 3, "ok");
    let mut expected = command(0xC3);
    expected.extend(frame(true, b'o'));
    expected.extend(frame(true, b'k'));
    assert_eq!(lcd.take_pending(), expected);
}

#[test]
fn print_to_an_unknown_row_sends_nothing() {
    for row in 2..=255u8 {
        let mut lcd = fresh();
        lcd.print(row, 0, "X");
        assert!(lcd.take_pending().is_empty(), "row {row}");
        lcd.print(row, 200, "a longer text");
        assert!(lcd.take_pending().is_empty(), "row {row}");
    }
}

#[test]
fn print_clamps_the_column() {
    let mut a = fresh();
    let mut b = fresh();
    a.print(0, 20, "X");
    b.print(0, 15, "X");
    let events = a.take_pending();
    assert_eq!(events, b.take_pending());
    let mut expected = command(0x8F);
    expected.extend(frame(true, b'X'));
    assert_eq!(events, expected);
}

#[test]
fn print_clamps_every_column_past_the_last() {
    for row in 0..=1u8 {
        let mut last = fresh();
        last.print(row, 15, "X");
        let expected = last.take_pending();
        for col in 15..=255u8 {
            let mut lcd = fresh();
            lcd.print(row, col, "X");
            assert_eq!(lcd.take_pending(), expected, "row {row} col {col}");
        }
    }
}

#[test]
fn print_keeps_columns_on_the_panel() {
    for col in 0..=15u8 {
        let mut lcd = fresh();
        lcd.print(1, col, "");
        assert_eq!(lcd.take_pending(), command(0xC0 + col));
    }
}

#[test]
fn print_does_not_truncate_long_text() {
    let text = "0123456789abcdefghijXYZ";
    let mut lcd = fresh();
    lcd.print(0, 10, text);
    let events = lcd.take_pending();
    assert_eq!(events.len(), 17 + 17 * text.len());
    let latches = sampled(&events);
    assert_eq!(latches.len(), 2 + 2 * text.len());
    assert_eq!(latches[0], (false, 0x8));
    assert_eq!(latches[1], (false, 0xA));
    let bytes: Vec<u8> = latches[2..]
        .chunks(2)
        .map(|pair| (pair[0].1 << 4) | pair[1].1)
        .collect();
    assert_eq!(bytes, text.as_bytes());
    assert!(latches[2..].iter().all(|l| l.0));
}

#[test]
fn delay_ms_waits_the_time_asked_for() {
    let mut lcd = fresh();
    lcd.delay_ms(1000);
    lcd.delay_ms(0);
    lcd.delay_ms(u32::MAX);
    assert_eq!(
        lcd.take_pending(),
        vec![wait(1000), wait(0), wait(u32::MAX)]
    );
}

#[test]
fn framing_leaves_the_state_alone() {
    let mut lcd = Lcd::new();
    lcd.command(0x06);
    lcd.data(0x20);
    lcd.print(0, 0, "x");
    lcd.clear();
    lcd.delay_ms(3);
    assert_eq!(lcd.state(), ControllerState::Unknown);
    lcd.init();
    lcd.command(0x06);
    lcd.data(0x20);
    lcd.print(1, 0, "x");
    lcd.print(7, 0, "x");
    lcd.clear();
    lcd.delay_ms(3);
    lcd.take_pending();
    assert_eq!(lcd.state(), ControllerState::Configured);
}

#[test]
fn strobe_rests_low_after_every_operation() {
    let mut lcd = fresh();
    lcd.init();
    lcd.print(0, 2, "T1:21.5");
    lcd.clear();
    let events = lcd.take_pending();
    let mut strobe = false;
    let mut previous_was_edge = false;
    for event in &events {
        match *event {
            BusEvent::Drive { line: Line::Strobe, high } => {
                assert!(!previous_was_edge);
                previous_was_edge = high != strobe;
                strobe = high;
            }
            BusEvent::Drive { line, .. } => {
                assert!(!previous_was_edge);
                if line != Line::Backlight {
                    assert!(!strobe);
                }
            }
            BusEvent::Wait { ms } => {
                if previous_was_edge {
                    assert!(ms >= 1);
                }
                previous_was_edge = false;
            }
        }
    }
    assert!(!strobe);
    assert!(!previous_was_edge);
}
