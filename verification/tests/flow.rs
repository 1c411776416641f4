use discord::flow::{RequestFlow, RequestStep, SendOutcome, is_success_status};

fn run(outcomes: &[SendOutcome]) -> usize {
    let mut f = RequestFlow::start();
    let mut sends = 1;
    for o in outcomes {
        match f.after_send(*o) {
            RequestStep::Send => sends += 1,
            RequestStep::Finish => return sends,
        }
    }
    sends
}

#[test]
fn aborted_connection_is_retried_once() {
    let mut f = RequestFlow::start();
    assert_eq!(f.after_send(SendOutcome::Aborted), RequestStep::Send);
    assert_eq!(f.after_send(SendOutcome::Aborted), RequestStep::Finish);
}

#[test]
fn rate_limited_answer_is_sent_again_once() {
    let mut f = RequestFlow::start();
    assert_eq!(f.after_send(SendOutcome::Answered { rate_limited: true }), RequestStep::Send);
    assert_eq!(f.after_send(SendOutcome::Answered { rate_limited: true }), RequestStep::Finish);
}

#[test]
fn failures_and_plain_answers_finish() {
    let mut f = RequestFlow::start();
    assert_eq!(f.after_send(SendOutcome::Failed), RequestStep::Finish);
    let mut g = RequestFlow::start();
    assert_eq!(g.after_send(SendOutcome::Answered { rate_limited: false }), RequestStep::Finish);
}

#[test]
fn at_most_four_sends() {
    let worst = [
        SendOutcome::Aborted,
        SendOutcome::Answered { rate_limited: true },
        SendOutcome::Aborted,
        SendOutcome::Aborted,
        SendOutcome::Aborted,
    ];
    assert_eq!(run(&worst), 4);
    assert_eq!(run(&[SendOutcome::Answered { rate_limited: false }]), 1);
}

#[test]
fn success_statuses_are_2xx() {
    assert!(is_success_status(200));
    assert!(is_success_status(204));
    assert!(is_success_status(299));
    assert!(!is_success_status(199));
    assert!(!is_success_status(300));
    assert!(!is_success_status(429));
}
