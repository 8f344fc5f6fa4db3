use std::time::{SystemTime, UNIX_EPOCH};

use rudo::session::{SessionError, Token, DEFAULT_SESSION_TIMEOUT};

fn now() -> u64 {
    SystemTime::now().duration_since(UNIX_EPOCH).unwrap().as_secs()
}

#[test]
fn test_timestamp() {
    let token = Token::new("name", "1234", now()).unwrap();
    assert!(
        token.final_timestamp - DEFAULT_SESSION_TIMEOUT == token.timestamp,
        "Test failed: timestamp creation got wrong"
    );
}

#[test]
fn token_expires_six_hundred_seconds_later() {
    let token = Token::new("/dev/pts/0", "abc", 1_000).unwrap();
    assert_eq!(token.timestamp, 1_000);
    assert_eq!(token.final_timestamp, 1_600);
    assert_eq!(token.tty_name, "/dev/pts/0");
    assert_eq!(token.tty_uuid, "abc");
}

#[test]
fn token_new_reports_overflow() {
    assert!(matches!(
        Token::new("a", "b", u64::MAX - 599),
        Err(SessionError::TimestampOverflow)
    ));
    assert!(Token::new("a", "b", u64::MAX - 600).is_ok());
}

#[test]
fn token_is_valid_before_expiry_on_same_terminal() {
    let token = Token::new("/dev/pts/1", "uuid", 100).unwrap();
    assert_eq!(token.verify_token("/dev/pts/1", "uuid", 100), Ok(()));
    assert_eq!(token.verify_token("/dev/pts/1", "uuid", 699), Ok(()));
}

#[test]
fn expired_token_is_never_valid() {
    let token = Token::new("/dev/pts/1", "uuid", 100).unwrap();
    assert_eq!(token.verify_token("/dev/pts/1", "uuid", 700), Err(SessionError::Expired));
    assert_eq!(token.verify_token("/dev/pts/2", "other", 5_000), Err(SessionError::Expired));
}

#[test]
fn token_of_other_terminal_is_never_valid() {
    let token = Token::new("/dev/pts/1", "uuid", 100).unwrap();
    assert_eq!(token.verify_token("/dev/pts/2", "uuid", 200), Err(SessionError::NotSameSession));
    assert_eq!(token.verify_token("/dev/pts/1", "uuid2", 200), Err(SessionError::NotSameSession));
}

#[test]
fn token_text_has_exact_layout() {
    let token = Token::new("pts/0", "1234", 1).unwrap();
    assert_eq!(
        token.to_text(),
        "00000000000000000005:pts/0\n00000000000000000004:1234\n00000000000000000001\n00000000000000000601\n"
    );
}

#[test]
fn token_round_trips_through_text() {
    let token = Token::new("/dev/pts/7", "325768vd", now()).unwrap();
    let read = Token::from_text(&token.to_text()).unwrap();
    assert_eq!(read.tty_name, token.tty_name);
    assert_eq!(read.tty_uuid, token.tty_uuid);
    assert_eq!(read.timestamp, token.timestamp);
    assert_eq!(read.final_timestamp, token.final_timestamp);
}

#[test]
fn token_round_trips_awkward_fields() {
    let token = Token {
        tty_name: "line\nbreak:colon".to_owned(),
        tty_uuid: "ünïcödé\n".to_owned(),
        timestamp: 0,
        final_timestamp: u64::MAX,
    };
    let read = Token::from_text(&token.to_text()).unwrap();
    assert_eq!(read.tty_name, token.tty_name);
    assert_eq!(read.tty_uuid, token.tty_uuid);
    assert_eq!(read.timestamp, 0);
    assert_eq!(read.final_timestamp, u64::MAX);
}

#[test]
fn malformed_token_text_is_refused() {
    assert!(Token::from_text("").is_none());
    assert!(Token::from_text("garbage").is_none());
    let good = Token::new("pts/0", "1234", 1).unwrap().to_text();
    let mut longer = good.clone();
    longer.push('x');
    assert!(Token::from_text(&longer).is_none());
    assert!(Token::from_text(&good[..good.len() - 1]).is_none());
    let wrong_count = good.replacen("00000000000000000005", "00000000000000000006", 1);
    assert!(Token::from_text(&wrong_count).is_none());
}

#[test]
fn oversized_number_is_refused() {
    let text = "00000000000000000001:a\n00000000000000000001:b\n18446744073709551616\n00000000000000000001\n";
    assert!(Token::from_text(text).is_none());
    let text = "00000000000000000001:a\n00000000000000000001:b\n18446744073709551615\n00000000000000000001\n";
    assert_eq!(Token::from_text(text).unwrap().timestamp, u64::MAX);
}
