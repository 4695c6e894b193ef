use joke_fetcher::session::{backoff_delay, MAX_DELAY_MS};
use joke_fetcher::{Action, JokeType, Session};

fn domain_error() -> JokeType {
    JokeType::Error("No joke found".to_string())
}

#[test]
fn single_joke_is_presented_under_a_fixed_summary() {
    let mut s = Session::new(3, 100);
    match s.next_action(JokeType::Single("a joke".to_string())) {
        Action::Present { lines, summary, body } => {
            assert_eq!(lines, vec!["a joke".to_string()]);
            assert_eq!(summary, "Joke");
            assert_eq!(body, "a joke");
        }
        _ => panic!("expected a joke to present"),
    }
}

#[test]
fn two_part_joke_is_presented_on_two_lines() {
    let mut s = Session::new(3, 100);
    let outcome = JokeType::TwoPart("the setup".to_string(), "the delivery".to_string());
    match s.next_action(outcome) {
        Action::Present { lines, summary, body } => {
            assert_eq!(lines, vec!["the setup".to_string(), "the delivery".to_string()]);
            assert_eq!(summary, "the setup");
            assert_eq!(body, "the delivery");
        }
        _ => panic!("expected a joke to present"),
    }
}

#[test]
fn domain_errors_are_retried_with_doubling_pauses_then_given_up() {
    let mut s = Session::new(4, 100);
    let mut delays = Vec::new();
    for _ in 0..3 {
        match s.next_action(domain_error()) {
            Action::Retry { reason, delay_ms } => {
                assert_eq!(reason, "No joke found");
                delays.push(delay_ms);
            }
            _ => panic!("expected a retry"),
        }
    }
    assert_eq!(delays, vec![100, 200, 400]);
    match s.next_action(domain_error()) {
        Action::GiveUp { reason } => assert_eq!(reason, "No joke found"),
        _ => panic!("expected the session to give up"),
    }
    assert!(matches!(s.next_action(domain_error()), Action::GiveUp { .. }));
}

#[test]
fn no_attempts_allowed_gives_up_at_once() {
    let mut s = Session::new(0, 100);
    assert!(matches!(s.next_action(domain_error()), Action::GiveUp { .. }));
    let mut one = Session::new(1, 100);
    assert!(matches!(one.next_action(domain_error()), Action::GiveUp { .. }));
}

#[test]
fn backoff_doubles_and_is_capped() {
    assert_eq!(backoff_delay(100, 0), 100);
    assert_eq!(backoff_delay(100, 3), 800);
    assert_eq!(backoff_delay(1000, 5), 32000);
    assert_eq!(backoff_delay(1000, 6), MAX_DELAY_MS);
    assert_eq!(backoff_delay(1000, u32::MAX), MAX_DELAY_MS);
    assert_eq!(backoff_delay(u64::MAX, 0), MAX_DELAY_MS);
    assert_eq!(backoff_delay(0, 40), 0);
}
