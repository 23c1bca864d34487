use noise_channel::echo::{echo_reply, echo_transform, echo_transform_chars, flip_char, is_sentinel, reply_closes};

#[test]
fn echo_transform_example() {
    let once = echo_transform(b"Hi01!");
    assert_eq!(once, b"hI10!".to_vec());
    let twice = echo_transform(&once);
    assert_eq!(twice, b"Hi01!".to_vec());
}

#[test]
fn echo_transform_keeps_other_bytes() {
    let text = "a Z 2 9 é ~";
    let out = echo_transform(text.as_bytes());
    assert_eq!(String::from_utf8(out).unwrap(), "A z 2 9 É ~");
}

#[test]
fn echo_transform_empty() {
    assert_eq!(echo_transform(b""), Vec::<u8>::new());
}

#[test]
fn echo_transform_twice_is_identity() {
    let inputs: [&[u8]; 4] = [b"Hello, World!", b"0101 xyz XYZ", b"EXIT", b"exit now"];
    for input in inputs {
        assert_eq!(echo_transform(&echo_transform(input)), input.to_vec());
    }
}

#[test]
fn echo_reply_sentinel() {
    assert_eq!(echo_reply(b"exit"), (b"exit".to_vec(), true));
    assert!(is_sentinel(b"exit"));
    assert!(!is_sentinel(b"exit "));
    assert!(!is_sentinel(b"EXIT"));
}

#[test]
fn echo_reply_other() {
    assert_eq!(echo_reply(b"EXIT"), (b"exit".to_vec(), false));
    assert_eq!(echo_reply(b"abc"), (b"ABC".to_vec(), false));
    assert!(reply_closes(b"exit"));
    assert!(!reply_closes(b"ABC"));
}

#[test]
fn echo_transform_unicode_letters() {
    assert_eq!(flip_char('é'), 'É');
    assert_eq!(flip_char('É'), 'é');
    assert_eq!(flip_char('ω'), 'Ω');
    assert_eq!(flip_char('Ж'), 'ж');
    assert_eq!(flip_char('0'), '1');
    assert_eq!(flip_char('1'), '0');
    assert_eq!(flip_char('7'), '7');
    // No one-to-one partner: the upper case of ß is two characters.
    assert_eq!(flip_char('ß'), 'ß');
    // The Kelvin sign lowers to an ASCII k, which raises to K, not back.
    assert_eq!(flip_char('\u{212A}'), '\u{212A}');
    assert_eq!(echo_transform_chars(&['h', 'É', '1']), vec!['H', 'é', '0']);
}

#[test]
fn echo_transform_changes_byte_length() {
    let once = echo_transform("Ⱥ".as_bytes());
    assert_eq!(String::from_utf8(once.clone()).unwrap(), "ⱥ");
    assert_eq!(once.len(), 3);
    assert_eq!(echo_transform(&once), "Ⱥ".as_bytes().to_vec());
}

#[test]
fn echo_transform_non_utf8_unchanged() {
    let bytes = [0xffu8, 0x41, 0x30];
    assert_eq!(echo_transform(&bytes), bytes.to_vec());
}
