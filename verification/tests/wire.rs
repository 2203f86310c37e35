use remote_exec::wire::{command_text, keep_bounded, reply_text, PAYLOAD_CAPACITY, REPLY_CAPACITY};

#[test]
fn capacities_are_those_of_the_two_buffers() {
    assert_eq!(PAYLOAD_CAPACITY, 1024);
    assert_eq!(REPLY_CAPACITY, 512);
}

#[test]
fn short_input_is_kept_whole() {
    assert_eq!(keep_bounded(b"echo hi", 1024), b"echo hi".to_vec());
}

#[test]
fn empty_input_stays_empty() {
    assert_eq!(keep_bounded(b"", 1024), Vec::<u8>::new());
}

#[test]
fn limit_zero_keeps_nothing() {
    assert_eq!(keep_bounded(b"abc", 0), Vec::<u8>::new());
}

#[test]
fn input_of_exactly_the_limit_is_kept_whole() {
    let bytes: Vec<u8> = (0..1024u32).map(|i| (i % 251) as u8).collect();
    assert_eq!(keep_bounded(&bytes, 1024), bytes);
}

#[test]
fn input_one_byte_over_the_limit_loses_its_last_byte() {
    let bytes: Vec<u8> = (0..1025u32).map(|i| (i % 251) as u8).collect();
    let kept = keep_bounded(&bytes, 1024);
    assert_eq!(kept.len(), 1024);
    assert_eq!(kept[..], bytes[..1024]);
}

#[test]
fn long_input_is_cut_to_its_first_bytes() {
    assert_eq!(keep_bounded(b"abcdefgh", 3), b"abc".to_vec());
}

#[test]
fn command_text_of_ascii_is_the_same_text() {
    assert_eq!(command_text(b"ls -l | wc -l"), "ls -l | wc -l");
}

#[test]
fn command_text_keeps_well_formed_multibyte_text() {
    assert_eq!(command_text("echo héllo ✓".as_bytes()), "echo héllo ✓");
}

#[test]
fn command_text_replaces_a_byte_that_encodes_nothing() {
    assert_eq!(command_text(&[0x66, 0x6f, 0xff, 0x6f]), "fo\u{FFFD}o");
}

#[test]
fn command_text_keeps_an_embedded_nul() {
    assert_eq!(command_text(b"a\0b"), "a\0b");
}

#[test]
fn command_text_of_nothing_is_empty() {
    assert_eq!(command_text(b""), "");
}

#[test]
fn command_text_of_a_full_buffer_is_whole() {
    let payload = vec![b'a'; 1024];
    assert_eq!(command_text(&payload), "a".repeat(1024));
}

#[test]
fn command_text_drops_what_is_beyond_the_buffer() {
    let mut payload = vec![b'a'; 1024];
    payload.extend_from_slice(b"; rm -rf /");
    assert_eq!(command_text(&payload), "a".repeat(1024));
}

#[test]
fn command_text_cut_inside_a_character_ends_in_a_replacement() {
    let mut payload = vec![b'a'; 1023];
    payload.extend_from_slice("é".as_bytes());
    let mut expected = "a".repeat(1023);
    expected.push('\u{FFFD}');
    assert_eq!(command_text(&payload), expected);
}

#[test]
fn reply_text_of_the_acknowledgement() {
    assert_eq!(reply_text(b"OK"), "OK");
}

#[test]
fn reply_text_of_a_full_buffer_is_whole() {
    let answer = vec![b'x'; 512];
    assert_eq!(reply_text(&answer), "x".repeat(512));
}

#[test]
fn reply_text_drops_what_is_beyond_the_buffer() {
    let mut answer = vec![b'x'; 512];
    answer.push(b'y');
    assert_eq!(reply_text(&answer), "x".repeat(512));
}

#[test]
fn reply_text_replaces_a_byte_that_encodes_nothing() {
    assert_eq!(reply_text(&[0x4f, 0x80, 0x4b]), "O\u{FFFD}K");
}
