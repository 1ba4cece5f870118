use echo_service::client::{
    is_no_response, no_response_message, outbound_message, tcp_echo_report, udp_echo_report,
    udp_text_report,
};
use echo_service::outcome::IoErrorKind;
use echo_service::text::{has_trailing_newline, sanitize_utf8, with_newline};

/// Splits `input` into lines as a line reader would, each keeping its newline.
fn lines(input: &str) -> Vec<&str> {
    input.split_inclusive('\n').collect()
}

#[test]
fn test_tcp_client_loop() {
    let user_input = "client1\nclient2";
    let server_read = "server1\nserver2";
    let mut server_write = Vec::new();
    let mut cli_output = Vec::new();
    for (line, echo) in lines(user_input).into_iter().zip(lines(server_read)) {
        server_write.extend_from_slice(&outbound_message(line.as_bytes()));
        cli_output.extend_from_slice(&tcp_echo_report(echo.as_bytes()));
    }
    assert_eq!(String::from_utf8(server_write).unwrap(), "client1\nclient2\n");
    assert_eq!("ECHO: server1\nECHO: server2\n", String::from_utf8(cli_output).unwrap());
}

#[test]
fn test_run_udp_client() {
    let server_addr = "127.0.0.1:40001".to_string();
    let server_addr2 = "127.0.0.1:40002".to_string();
    let sent: Vec<Vec<u8>> = lines("client1\nclient2").into_iter().map(|l| outbound_message(l.as_bytes())).collect();
    assert_eq!("client1\n", String::from_utf8_lossy(&sent[0]).to_string());
    assert_eq!("client2\n", String::from_utf8_lossy(&sent[1]).to_string());
    let mut user_output = Vec::new();
    user_output.extend_from_slice(&udp_echo_report(b"server1\n", &server_addr, &server_addr));
    user_output.extend_from_slice(&udp_echo_report(b"server2", &server_addr, &server_addr2));
    let expected_output = format!("ECHO: server1\nNEWLINE ADDED\nECHO: 127.0.0.1:{} server2\n", 40002);
    assert_eq!(expected_output, String::from_utf8(user_output).unwrap());
}

#[test]
fn test_run_udp_client_no_response() {
    let server_addr = "127.0.0.1:40003".to_string();
    assert!(is_no_response(IoErrorKind::WouldBlock));
    assert_eq!(no_response_message(&server_addr), format!("no response from {server_addr}"));
}

#[test]
fn other_receive_errors_are_not_timeouts() {
    assert!(!is_no_response(IoErrorKind::ConnectionRefused));
    assert!(!is_no_response(IoErrorKind::Other));
}

#[test]
fn udp_report_of_invalid_bytes() {
    let addr = "10.0.0.1:7".to_string();
    assert_eq!(udp_echo_report(&[0xFF, b'\n'], &addr, &addr), "ECHO: \u{FFFD}\n".as_bytes().to_vec());
}

#[test]
fn udp_text_report_shows_unexpected_sender() {
    let expected = "[::1]:2048".to_string();
    let from = "[::1]:2049".to_string();
    assert_eq!(udp_text_report(b"hi\n", &expected, &from), b"ECHO: [::1]:2049 hi\n".to_vec());
    assert_eq!(udp_text_report(b"", &expected, &expected), b"NEWLINE ADDED\nECHO: \n".to_vec());
}

#[test]
fn tcp_report_of_empty_echo() {
    assert_eq!(tcp_echo_report(b""), b"ECHO: \n".to_vec());
}

#[test]
fn newline_rules() {
    assert!(has_trailing_newline(b"a\n"));
    assert!(!has_trailing_newline(b"a"));
    assert!(!has_trailing_newline(b""));
    assert_eq!(with_newline(b"a\n"), b"a\n".to_vec());
    assert_eq!(with_newline(b"a"), b"a\n".to_vec());
    assert_eq!(with_newline(b"\n\n"), b"\n\n".to_vec());
}

#[test]
fn sanitize_replaces_invalid_sequences() {
    assert_eq!(sanitize_utf8(&[0x80]), vec![0xEF, 0xBF, 0xBD]);
    assert_eq!(sanitize_utf8("ok ü".as_bytes()), "ok ü".as_bytes().to_vec());
}
