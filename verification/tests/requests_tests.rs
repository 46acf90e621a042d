use comelit_hub::requests::RequestManager;

#[test]
fn new_manager_is_idle() {
    let m = RequestManager::new();
    assert!(!m.is_running());
}

#[test]
fn start_and_stop() {
    let mut m = RequestManager::new();
    m.start();
    assert!(m.is_running());
    m.stop();
    assert!(!m.is_running());
}

#[test]
fn answers_complete_their_requests_once() {
    let mut m = RequestManager::new();
    m.add_request(7, 1_000);
    m.add_request(8, 1_000);
    assert!(m.complete_request(Some(7), true));
    assert!(!m.complete_request(Some(7), true));
    assert!(!m.complete_request(Some(9), true));
    assert!(!m.complete_request(None, true));
    assert!(m.complete_request(Some(8), true));
}

#[test]
fn only_requests_older_than_the_timeout_are_dropped() {
    let mut m = RequestManager::new();
    m.add_request(1, 0);
    m.add_request(2, 5_000);
    m.add_request(3, 9_000);
    // At 20.5 s: request 1 waited 20 s, 2 waited 15 s, 3 waited 11 s.
    let mut removed = m.remove_pending_requests(20_500);
    removed.sort();
    assert_eq!(removed, vec![1, 2, 3]);
    m.add_request(4, 30_000);
    // Exactly ten whole seconds is not too long.
    assert!(m.remove_pending_requests(40_999).is_empty());
    assert_eq!(m.remove_pending_requests(41_000), vec![4]);
}

#[test]
fn fresh_requests_survive_cleanup() {
    let mut m = RequestManager::new();
    m.add_request(1, 0);
    m.add_request(2, 15_000);
    assert_eq!(m.remove_pending_requests(16_000), vec![1]);
    assert!(m.complete_request(Some(2), true));
    assert!(!m.complete_request(Some(1), true));
}

#[test]
fn an_answer_nobody_waits_for_is_not_completed() {
    let mut m = RequestManager::new();
    m.add_request(3, 0);
    // The waiter gave up: the request is dropped all the same.
    assert!(!m.complete_request(Some(3), false));
    assert!(!m.complete_request(Some(3), true));
}
