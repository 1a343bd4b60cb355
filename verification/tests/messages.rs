use tiny_audio_player::messages::trim_nuls;

#[test]
fn padding_is_stripped_from_both_ends() {
    let buffer = [0u8, 0, b'a', b'b', b'c', 0, 0, 0];
    assert_eq!(trim_nuls(&buffer), b"abc");
}

#[test]
fn a_message_without_padding_is_unchanged() {
    assert_eq!(trim_nuls(b"path.mp3"), b"path.mp3");
}

#[test]
fn an_all_zero_buffer_yields_nothing() {
    assert_eq!(trim_nuls(&[0u8; 16]), Vec::<u8>::new());
    assert_eq!(trim_nuls(&[]), Vec::<u8>::new());
}

#[test]
fn interior_zeros_survive() {
    let buffer = [0u8, b'a', 0, b'b', 0];
    assert_eq!(trim_nuls(&buffer), [b'a', 0, b'b']);
}

#[test]
fn trailing_padding_only() {
    let mut buffer = [0u8; 1500];
    buffer[..9].copy_from_slice(b"/tune.ogg");
    assert_eq!(trim_nuls(&buffer), b"/tune.ogg");
}
