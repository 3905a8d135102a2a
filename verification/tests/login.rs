use aias_app::attempts::{record_login_attempt, MAX_LOGIN_ATTEMPTS};
use aias_app::code::{check_code, new_login_ticket, new_secret_code, SECRET_CODE_BOUND, SECRET_CODE_MIN};
use aias_app::error::Refusal;
use aias_app::token::{new_session_token, TOKEN_LENGTH};

#[test]
fn first_attempt_starts_the_counter() {
    assert_eq!(record_login_attempt(None), Ok(1));
}

#[test]
fn attempt_below_the_limit_counts_up() {
    assert_eq!(record_login_attempt(Some(3)), Ok(4));
    assert_eq!(record_login_attempt(Some(4)), Ok(5));
}

#[test]
fn attempt_at_the_limit_is_refused() {
    assert_eq!(record_login_attempt(Some(5)), Err(Refusal::TooManyLoginFailures));
    assert_eq!(record_login_attempt(Some(900)), Err(Refusal::TooManyLoginFailures));
}

#[test]
fn negative_counter_counts_up() {
    assert_eq!(record_login_attempt(Some(-3)), Ok(-2));
    assert_eq!(record_login_attempt(Some(i32::MIN)), Ok(i32::MIN + 1));
}

#[test]
fn fresh_session_gets_five_attempts() {
    let mut counter: Option<i32> = None;
    let mut allowed = 0;
    for _ in 0..12 {
        match record_login_attempt(counter) {
            Ok(c) => {
                counter = Some(c);
                allowed += 1;
            }
            Err(e) => assert_eq!(e, Refusal::TooManyLoginFailures),
        }
    }
    assert_eq!(allowed, 5);
    assert_eq!(counter, Some(MAX_LOGIN_ATTEMPTS));
}

#[test]
fn matching_code_is_accepted() {
    assert_eq!(check_code(123456, 123456), Ok(()));
}

#[test]
fn wrong_code_is_refused() {
    assert_eq!(check_code(123456, 654321), Err(Refusal::InvalidCode));
    assert_eq!(check_code(0, 1), Err(Refusal::InvalidCode));
}

#[test]
fn refusal_messages() {
    assert_eq!(Refusal::TooManyLoginFailures.message(), "too many login failures");
    assert_eq!(Refusal::InvalidCode.message(), "invalid code");
    assert_eq!(Refusal::InvalidCheckParameter.message(), "invalid");
}

#[test]
fn secret_codes_lie_in_range() {
    for _ in 0..200 {
        let c = new_secret_code();
        assert!(SECRET_CODE_MIN <= c && c < SECRET_CODE_BOUND);
    }
}

#[test]
fn session_token_shape() {
    for _ in 0..20 {
        let t = new_session_token();
        assert_eq!(t.chars().count(), TOKEN_LENGTH);
        assert!(t.chars().all(|c| c.is_ascii_alphanumeric()));
    }
}

#[test]
fn login_ticket_text_is_the_code() {
    for _ in 0..50 {
        let t = new_login_ticket();
        assert_eq!(t.secret_text.len(), 6);
        assert!(t.secret_text.chars().all(|c| c.is_ascii_digit()));
        assert_eq!(t.secret_text.parse::<u32>().unwrap(), t.secret);
        assert_eq!(t.token.len(), 32);
        assert!(t.token.chars().all(|c| c.is_ascii_alphanumeric()));
    }
}
