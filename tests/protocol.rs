use rubbermail::protocol::{
    Connection, Mail, SmtpError, State, SMTP_AUTH_OK, SMTP_EMPTY, SMTP_GOODBYE, SMTP_OK,
    SMTP_SEND_ME_DATA,
};

fn mail_of(state: &State) -> &Mail {
    match state {
        State::ReceivingRcpt(m) | State::ReceivingData(m) | State::Received(m) => m,
        other => panic!("no envelope in {:?}", other),
    }
}

#[test]
fn test_smtp_flow() {
    let mut conn = Connection::new("test");
    assert_eq!(conn.state, State::Ready);

    conn.handle_smtp("HELO localhost").unwrap();
    assert_eq!(conn.state, State::Acknowledged);

    conn.handle_smtp("MAIL FROM: <local@example.com>").unwrap();
    assert!(matches!(conn.state, State::ReceivingRcpt(_)));

    conn.handle_smtp("RCPT TO: <receiver@localhost>").unwrap();
    assert!(matches!(conn.state, State::ReceivingRcpt(_)));

    conn.handle_smtp("RCPT TO: <receiver2@localhost>").unwrap();
    assert!(matches!(conn.state, State::ReceivingRcpt(_)));

    conn.handle_smtp("DATA hello world\n").unwrap();
    assert!(matches!(conn.state, State::ReceivingData(_)));

    conn.handle_smtp("DATA hello world2\n").unwrap();
    assert!(matches!(conn.state, State::ReceivingData(_)));

    conn.handle_smtp("QUIT").unwrap();
    assert!(matches!(conn.state, State::Received(_)));
}

#[test]
fn test_no_greeting() {
    let mut sm = Connection::new("test");
    assert_eq!(sm.state, State::Ready);
    for command in [
        "MAIL FROM: <local@example.com>",
        "RCPT TO: <local@example.com>",
        "DATA hey",
        "GARBAGE",
    ] {
        assert!(sm.handle_smtp(command).is_err());
    }
}

#[test]
fn helo_acknowledges() {
    let mut conn = Connection::new("test");
    assert_eq!(conn.handle_smtp("HELO localhost").unwrap(), SMTP_OK.as_bytes());
    assert_eq!(conn.handle_smtp("HELO localhost").is_err(), true);
    let mut conn = Connection::new("test");
    conn.handle_smtp("HELO localhost").unwrap();
    assert_eq!(conn.state, State::Acknowledged);
}

#[test]
fn ehlo_answers_greeting() {
    let mut conn = Connection::new("mx.example");
    assert_eq!(conn.ehlo_greeting, "250-mx.example Hello mx.example\n250 AUTH PLAIN LOGIN\n");
    let reply = conn.handle_smtp("ehlo client").unwrap().to_vec();
    assert_eq!(reply, b"250-mx.example Hello mx.example\n250 AUTH PLAIN LOGIN\n".to_vec());
    assert_eq!(conn.state, State::Acknowledged);
}

#[test]
fn mail_sets_sender() {
    let mut conn = Connection::new("test");
    conn.handle_smtp("HELO localhost").unwrap();
    assert_eq!(conn.handle_smtp("MAIL FROM: <local@example.com>").unwrap(), SMTP_OK.as_bytes());
    let m = mail_of(&conn.state);
    assert_eq!(m.from, "<local@example.com>");
    assert!(m.to.is_empty());
    assert_eq!(m.data, "");
}

#[test]
fn mail_sender_in_same_word() {
    let mut conn = Connection::new("test");
    conn.handle_smtp("HELO localhost").unwrap();
    conn.handle_smtp("mail FROM:<a@b>").unwrap();
    assert_eq!(mail_of(&conn.state).from, "<a@b>");
}

#[test]
fn recipients_accumulate_in_order() {
    let mut conn = Connection::new("test");
    conn.handle_smtp("HELO localhost").unwrap();
    conn.handle_smtp("MAIL FROM: <local@example.com>").unwrap();
    assert_eq!(conn.handle_smtp("RCPT TO: <a>").unwrap(), SMTP_OK.as_bytes());
    assert_eq!(conn.handle_smtp("RCPT TO: <b>").unwrap(), SMTP_OK.as_bytes());
    assert_eq!(mail_of(&conn.state).to, vec!["<a>".to_string(), "<b>".to_string()]);
    assert!(matches!(conn.state, State::ReceivingRcpt(_)));
}

#[test]
fn data_prompts_for_body() {
    let mut conn = Connection::new("test");
    conn.handle_smtp("HELO localhost").unwrap();
    conn.handle_smtp("MAIL FROM: <x>").unwrap();
    assert_eq!(
        conn.handle_smtp("DATA").unwrap(),
        b"354 End data with <CR><LF>.<CR><LF>\n"
    );
    assert_eq!(SMTP_SEND_ME_DATA.as_bytes(), b"354 End data with <CR><LF>.<CR><LF>\n");
    assert!(matches!(conn.state, State::ReceivingData(_)));
    assert_eq!(mail_of(&conn.state).data, "");
    assert!(mail_of(&conn.state).to.is_empty());
}

fn in_body() -> Connection {
    let mut conn = Connection::new("test");
    conn.handle_smtp("HELO localhost").unwrap();
    conn.handle_smtp("MAIL FROM: <x>").unwrap();
    conn.handle_smtp("RCPT TO: <y>").unwrap();
    conn.handle_smtp("DATA").unwrap();
    conn
}

#[test]
fn terminator_line_answers_ok_and_quit_completes() {
    let mut conn = in_body();
    assert_eq!(conn.handle_smtp("hello\r\n.\r\n").unwrap(), b"250 Ok\n");
    assert!(matches!(conn.state, State::ReceivingData(_)));
    assert_eq!(mail_of(&conn.state).data, "hello\r\n.\r\n");
    assert_eq!(conn.handle_smtp("QUIT").unwrap(), b"221 Bye\n");
    assert!(matches!(conn.state, State::Received(_)));
    assert_eq!(mail_of(&conn.state).data, "hello\r\n.\r\n");
    assert_eq!(mail_of(&conn.state).from, "<x>");
    assert_eq!(mail_of(&conn.state).to, vec!["<y>".to_string()]);
}

#[test]
fn body_lines_are_concatenated() {
    let mut conn = in_body();
    assert_eq!(conn.handle_smtp("Subject: hi\r\n").unwrap(), SMTP_EMPTY.as_bytes());
    assert_eq!(conn.handle_smtp("").unwrap(), b"");
    assert_eq!(conn.handle_smtp("  \r\n").unwrap(), b"");
    assert_eq!(conn.handle_smtp("MAIL FROM: <z>\r\n").unwrap(), b"");
    assert_eq!(conn.handle_smtp("body\r\n.\r\n").unwrap(), SMTP_OK.as_bytes());
    conn.handle_smtp("quit").unwrap();
    assert_eq!(
        mail_of(&conn.state).data,
        "Subject: hi\r\n  \r\nMAIL FROM: <z>\r\nbody\r\n.\r\n"
    );
}

#[test]
fn no_ops_keep_state() {
    for verb in ["NOOP", "help", "Info", "VRFY x", "expn list"] {
        let mut conn = in_body();
        conn.handle_smtp("line\r\n").unwrap();
        let before = conn.state.clone();
        assert_eq!(conn.handle_smtp(verb).unwrap(), SMTP_OK.as_bytes());
        assert_eq!(conn.state, before);

        let mut fresh = Connection::new("test");
        assert_eq!(fresh.handle_smtp(verb).unwrap(), SMTP_OK.as_bytes());
        assert_eq!(fresh.state, State::Ready);
    }
}

#[test]
fn reset_discards_envelope() {
    let mut conn = in_body();
    conn.handle_smtp("text\r\n").unwrap();
    assert_eq!(conn.handle_smtp("RSET").unwrap(), SMTP_OK.as_bytes());
    assert_eq!(conn.state, State::Ready);

    let mut conn = Connection::new("test");
    conn.handle_smtp("HELO x").unwrap();
    conn.handle_smtp("MAIL FROM:<a>").unwrap();
    conn.handle_smtp("rset").unwrap();
    assert_eq!(conn.state, State::Ready);
    assert!(conn.handle_smtp("RCPT TO:<b>").is_err());
}

#[test]
fn auth_is_accepted_and_resets() {
    let mut conn = Connection::new("test");
    conn.handle_smtp("HELO x").unwrap();
    assert_eq!(conn.handle_smtp("AUTH PLAIN abc").unwrap(), SMTP_AUTH_OK.as_bytes());
    assert_eq!(conn.state, State::Ready);
}

#[test]
fn quit_outside_body_says_bye() {
    let mut conn = Connection::new("test");
    conn.handle_smtp("HELO x").unwrap();
    assert_eq!(conn.handle_smtp("QUIT").unwrap(), SMTP_GOODBYE.as_bytes());
    assert_eq!(conn.state, State::Ready);
}

#[test]
fn empty_line_is_refused_outside_body() {
    let mut conn = Connection::new("test");
    conn.handle_smtp("HELO x").unwrap();
    assert_eq!(conn.handle_smtp("   ").unwrap_err(), SmtpError::EmptyCommand);
    assert_eq!(conn.handle_smtp("").unwrap_err(), SmtpError::EmptyCommand);
    assert_eq!(conn.state, State::Acknowledged);
}

#[test]
fn malformed_arguments_are_refused() {
    let mut conn = Connection::new("test");
    conn.handle_smtp("HELO x").unwrap();
    assert_eq!(conn.handle_smtp("MAIL").unwrap_err(), SmtpError::Malformed);
    assert_eq!(conn.state, State::Ready);

    let mut conn = Connection::new("test");
    conn.handle_smtp("HELO x").unwrap();
    assert_eq!(conn.handle_smtp("MAIL from:<a>").unwrap_err(), SmtpError::Malformed);

    let mut conn = Connection::new("test");
    conn.handle_smtp("HELO x").unwrap();
    conn.handle_smtp("MAIL FROM:<a>").unwrap();
    assert_eq!(conn.handle_smtp("RCPT <b>").unwrap_err(), SmtpError::Malformed);
    assert_eq!(conn.state, State::Ready);
}

#[test]
fn unexpected_command_reports_state_and_line() {
    let mut conn = Connection::new("test");
    conn.handle_smtp("HELO x").unwrap();
    let err = conn.handle_smtp("GARBAGE now").unwrap_err();
    assert_eq!(
        err,
        SmtpError::UnexpectedCommand { state: State::Acknowledged, line: "GARBAGE now".to_string() }
    );
    assert_eq!(conn.state, State::Ready);
}

#[test]
fn unicode_whitespace_separates_words() {
    let mut conn = Connection::new("test");
    conn.handle_smtp("\u{3000}HeLo\u{a0}there").unwrap();
    conn.handle_smtp("MAIL\tFROM:\u{2003}<w>").unwrap();
    assert_eq!(mail_of(&conn.state).from, "<w>");
}
