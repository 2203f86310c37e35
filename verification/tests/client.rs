use remote_exec::client::{exchange, on_connect, on_reply, received_notice, ClientAction, ConnectOutcome};

#[test]
fn a_connected_client_sends_the_message_as_it_is() {
    assert_eq!(
        on_connect("echo hi", ConnectOutcome::Connected),
        ClientAction::Exchange {
            notice: String::from("Successfully connected to server in port 7878"),
            bytes: b"echo hi".to_vec(),
            sent_notice: String::from("Sent message: \"echo hi\""),
            capacity: 512,
        }
    );
}

#[test]
fn the_sent_message_is_shown_quoted_and_escaped() {
    let action = on_connect("printf \"a\\n\"\t'b'\n", ConnectOutcome::Connected);
    assert_eq!(
        action,
        ClientAction::Exchange {
            notice: String::from("Successfully connected to server in port 7878"),
            bytes: b"printf \"a\\n\"\t'b'\n".to_vec(),
            sent_notice: String::from("Sent message: \"printf \\\"a\\\\n\\\"\\t'b'\\n\""),
            capacity: 512,
        }
    );
}

#[test]
fn a_message_of_several_bytes_per_character_goes_out_as_utf8() {
    match on_connect("é", ConnectOutcome::Connected) {
        ClientAction::Exchange { bytes, .. } => assert_eq!(bytes, vec![0xc3, 0xa9]),
        ClientAction::GiveUp { .. } => panic!("the client gave up although it was connected"),
    }
}

#[test]
fn the_exchange_takes_the_quoted_form_as_given() {
    assert_eq!(
        exchange("ls", "<ls>"),
        ClientAction::Exchange {
            notice: String::from("Successfully connected to server in port 7878"),
            bytes: b"ls".to_vec(),
            sent_notice: String::from("Sent message: <ls>"),
            capacity: 512,
        }
    );
}

#[test]
fn a_failed_connect_is_reported_and_nothing_is_sent() {
    assert_eq!(
        on_connect("echo hi", ConnectOutcome::Failed(String::from("Connection refused (os error 111)"))),
        ClientAction::GiveUp {
            notice: String::from("Failed to connect: Connection refused (os error 111)"),
        }
    );
}

#[test]
fn the_acknowledgement_is_shown_as_received() {
    assert_eq!(on_reply(b"OK"), "Received: OK");
}

#[test]
fn an_error_answer_is_shown_as_received() {
    assert_eq!(
        on_reply(b"Failed to execute command: boom"),
        "Received: Failed to execute command: boom"
    );
}

#[test]
fn an_empty_answer_is_shown_as_nothing() {
    assert_eq!(on_reply(b""), "Received: ");
}

#[test]
fn an_answer_that_fills_the_buffer_is_shown_whole() {
    let answer = vec![b'z'; 512];
    assert_eq!(on_reply(&answer), format!("Received: {}", "z".repeat(512)));
}

#[test]
fn an_answer_longer_than_the_buffer_is_shown_up_to_the_cut() {
    let mut answer = vec![b'z'; 512];
    answer.extend_from_slice(b"tail");
    assert_eq!(on_reply(&answer), format!("Received: {}", "z".repeat(512)));
}

#[test]
fn an_answer_with_bytes_that_encode_nothing_is_shown_with_replacements() {
    assert_eq!(on_reply(&[0xff, 0x4f, 0x4b]), "Received: \u{FFFD}OK");
}

#[test]
fn the_notice_for_an_answer_is_the_prefix_and_the_text() {
    assert_eq!(received_notice("42"), "Received: 42");
}
