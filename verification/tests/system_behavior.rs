use lora_panel::system::Event;
use lora_panel::system::System;

fn serial_bytes(bytes: &[u8]) -> Vec<Event> {
    bytes.iter().map(|b| Event::SerialIrq(Some(*b))).collect()
}

const QUERY: &[u8] = b"AT+ADDRESS?\r\n";

#[test]
fn hello_end_to_end() {
    let mut s = System::new();
    let input = b"Hello\r\n";
    for b in input.iter() {
        // no frame has been produced yet: the delimiter is the last byte
        assert_eq!(s.shown().len(), 0);
        s.step(Event::SerialIrq(Some(*b)));
    }
    // exactly one completed frame, drawn and flushed exactly once
    assert_eq!(s.shown().len(), 1);
    assert_eq!(s.shown()[0], "Hello");
    // the accumulator is empty again
    assert_eq!(s.pending_len(), 0);
    // the receive path transmitted nothing
    assert!(s.tx_log().is_empty());
}

#[test]
fn carriage_returns_do_not_change_the_frames() {
    let mut plain = System::new();
    plain.run(&serial_bytes(b"one\ntwo\n"));
    let mut riddled = System::new();
    riddled.run(&serial_bytes(b"\rone\r\n\rtw\ro\r\n"));
    assert_eq!(plain.shown(), riddled.shown());
    assert_eq!(plain.pending_len(), riddled.pending_len());
}

#[test]
fn overlong_line_shows_first_32_accepted_bytes() {
    let mut s = System::new();
    let mut input: Vec<u8> = Vec::new();
    for _ in 0..40 {
        input.push(b'x');
    }
    input.push(b'\n');
    s.run(&serial_bytes(&input));
    assert_eq!(s.shown().len(), 1);
    assert_eq!(s.shown()[0], "x".repeat(32));
}

#[test]
fn delimiter_resets_between_frames() {
    let mut s = System::new();
    s.run(&serial_bytes(b"abc\ndef\n"));
    assert_eq!(s.shown().len(), 2);
    assert_eq!(s.shown()[0], "abc");
    // the second frame holds none of the first frame's bytes
    assert_eq!(s.shown()[1], "def");
    assert!(!s.shown()[1].contains('a'));
    assert!(!s.shown()[1].contains('b'));
    assert!(!s.shown()[1].contains('c'));
}

#[test]
fn first_byte_delimiter_yields_empty_frame() {
    let mut s = System::new();
    s.step(Event::SerialIrq(Some(b'\n')));
    assert_eq!(s.shown().len(), 1);
    assert_eq!(s.shown()[0], "");
    assert_eq!(s.pending_len(), 0);
}

#[test]
fn invalid_utf8_frame_is_discarded_silently() {
    let mut s = System::new();
    s.run(&serial_bytes(&[0xff, 0xfe, b'\n']));
    assert_eq!(s.shown().len(), 0);
    assert_eq!(s.pending_len(), 0);
    // the next frame comes through untouched
    s.run(&serial_bytes(b"ok\n"));
    assert_eq!(s.shown().len(), 1);
    assert_eq!(s.shown()[0], "ok");
}

#[test]
fn spurious_serial_interrupt_changes_nothing() {
    let mut s = System::new();
    s.step(Event::SerialIrq(Some(b'a')));
    s.step(Event::SerialIrq(None));
    assert_eq!(s.pending_len(), 1);
    assert_eq!(s.shown().len(), 0);
    assert!(s.tx_log().is_empty());
    assert!(!s.led_on());
}

#[test]
fn five_periods_alternate_and_transmit_five_queries() {
    let mut s = System::new();
    let mut levels = Vec::new();
    for i in 0..5 {
        s.step(Event::TimerIrq);
        levels.push(s.led_on());
        // interleave some receive activity between the periods
        if i % 2 == 0 {
            s.step(Event::SerialIrq(Some(b'z')));
        } else {
            s.step(Event::SerialIrq(Some(b'\n')));
        }
    }
    assert_eq!(levels, vec![true, false, true, false, true]);
    let mut expected = Vec::new();
    for _ in 0..5 {
        expected.extend_from_slice(QUERY);
    }
    assert_eq!(s.tx_log().as_slice(), expected.as_slice());
}

#[test]
fn query_bytes_are_exactly_the_status_command() {
    let mut s = System::new();
    s.step(Event::TimerIrq);
    assert_eq!(s.tx_log().as_slice(), QUERY);
    assert!(s.led_on());
}

#[test]
fn receive_activity_never_touches_the_transmit_log() {
    let mut s = System::new();
    s.step(Event::TimerIrq);
    let after_one_period = s.tx_log().clone();
    s.run(&serial_bytes(b"chatter\nmore\n"));
    assert_eq!(s.tx_log(), &after_one_period);
    assert!(s.led_on());
}
