use lora_panel::framing::FrameBuffer;
use lora_panel::framing::FRAME_CAPACITY;
use lora_panel::text::frame_text;

#[test]
fn push_accumulates_plain_bytes() {
    let mut b = FrameBuffer::new();
    assert!(!b.push(b'H'));
    assert!(!b.push(b'i'));
    assert_eq!(b.contents(), vec![b'H', b'i']);
    assert_eq!(b.len(), 2);
}

#[test]
fn carriage_return_is_dropped_without_counting() {
    let mut b = FrameBuffer::new();
    assert!(!b.push(b'a'));
    assert!(!b.push(b'\r'));
    assert!(!b.push(b'b'));
    assert_eq!(b.contents(), vec![b'a', b'b']);
}

#[test]
fn delimiter_signals_completion_without_mutating() {
    let mut b = FrameBuffer::new();
    b.push(b'x');
    let complete = b.push(b'\n');
    assert!(complete);
    assert_eq!(b.contents(), vec![b'x']);
}

#[test]
fn empty_frame_completes_on_first_delimiter() {
    let mut b = FrameBuffer::new();
    let complete = b.push(b'\n');
    assert!(complete);
    assert_eq!(b.contents(), Vec::<u8>::new());
}

#[test]
fn overflow_keeps_first_capacity_bytes() {
    let mut b = FrameBuffer::new();
    for i in 0..40u8 {
        let complete = b.push(b'0' + (i % 10));
        assert!(!complete);
    }
    let kept = b.contents();
    assert_eq!(kept.len(), FRAME_CAPACITY);
    for i in 0..FRAME_CAPACITY {
        assert_eq!(kept[i], b'0' + ((i as u8) % 10));
    }
}

#[test]
fn clear_resets_to_empty() {
    let mut b = FrameBuffer::new();
    b.push(b'q');
    b.push(b'r');
    b.clear();
    assert_eq!(b.len(), 0);
    assert!(!b.push(b's'));
    assert_eq!(b.contents(), vec![b's']);
}

#[test]
fn frame_text_decodes_and_trims() {
    let bytes = b"  hi there  ".to_vec();
    assert_eq!(frame_text(&bytes), Some("hi there".to_string()));
}

#[test]
fn frame_text_rejects_invalid_utf8() {
    let bytes = vec![0xffu8, 0xfe, b'a'];
    assert_eq!(frame_text(&bytes), None);
}

#[test]
fn frame_text_keeps_empty_frame() {
    let bytes = Vec::new();
    assert_eq!(frame_text(&bytes), Some(String::new()));
}
