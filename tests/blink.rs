use temp_monitor::morse::{accept_byte, BlinkAction, BlinkState, ByteEvent, CodeBlip, Gap};

fn message(text: &[u8]) -> ([u8; 128], usize) {
    let mut input = [0u8; 128];
    input[..text.len()].copy_from_slice(text);
    (input, text.len())
}

fn act(blip: Option<CodeBlip>, gap: Option<Gap>) -> BlinkAction {
    BlinkAction { restarted: false, blip, gap }
}

#[test]
fn blink_two_letters_then_restart() {
    let (input, len) = message(b"ab");
    let mut st = BlinkState::start(len, &input);
    let steps: Vec<BlinkAction> = (0..7).map(|_| st.step(len, &input)).collect();
    assert_eq!(
        steps,
        vec![
            act(Some(CodeBlip::Dot), Some(Gap::Signal)),
            act(Some(CodeBlip::Dash), Some(Gap::Letter)),
            act(Some(CodeBlip::Dash), Some(Gap::Signal)),
            act(Some(CodeBlip::Dot), Some(Gap::Signal)),
            act(Some(CodeBlip::Dot), Some(Gap::Signal)),
            act(Some(CodeBlip::Dot), Some(Gap::Word)),
            BlinkAction { restarted: true, blip: None, gap: Some(Gap::Word) },
        ]
    );
    assert_eq!(st.char_index, 0);
    assert_eq!(st.code_index, 0);
    assert_eq!(st.current, BlinkState::start(len, &input).current);
}

#[test]
fn blink_skips_bytes_without_code() {
    let (input, len) = message(b"!e");
    let mut st = BlinkState::start(len, &input);
    assert_eq!(st.current, None);
    assert_eq!(st.step(len, &input), act(None, None));
    assert_eq!(st.char_index, 1);
    assert_eq!(st.step(len, &input), act(Some(CodeBlip::Dot), Some(Gap::Word)));
    assert_eq!(st.char_index, 2);
}

#[test]
fn blink_empty_message_restarts() {
    let (input, len) = message(b"");
    let mut st = BlinkState::start(len, &input);
    assert_eq!(st.step(len, &input), BlinkAction { restarted: true, blip: None, gap: Some(Gap::Word) });
}

#[test]
fn accept_bytes_into_message() {
    let mut input = [0u8; 128];
    let mut len: usize = 0;
    assert_eq!(accept_byte(&mut input, &mut len, b'h'), ByteEvent::Stored);
    assert_eq!(accept_byte(&mut input, &mut len, b'i'), ByteEvent::Stored);
    assert_eq!(accept_byte(&mut input, &mut len, b'\r'), ByteEvent::LineEnd);
    assert_eq!(accept_byte(&mut input, &mut len, b'\n'), ByteEvent::LineEnd);
    assert_eq!(len, 2);
    assert_eq!(&input[..2], b"hi");
    assert_eq!(accept_byte(&mut input, &mut len, b'!'), ByteEvent::Cleared);
    assert_eq!(len, 0);
}

#[test]
fn accept_byte_drops_when_full() {
    let mut input = [b'e'; 128];
    let mut len: usize = 128;
    assert_eq!(accept_byte(&mut input, &mut len, b'x'), ByteEvent::Dropped);
    assert_eq!(len, 128);
    assert!(input.iter().all(|&b| b == b'e'));
}
