use ggezmulti::queue::MatchmakingQueue;

#[test]
fn new_queue_is_empty() {
    let mut queue = MatchmakingQueue::new();
    assert_eq!(queue.len(), 0);
    assert!(queue.pop_pair().is_none());
}

#[test]
fn enqueue_is_idempotent() {
    let mut queue = MatchmakingQueue::new();
    assert!(queue.enqueue("a".to_string()));
    assert!(!queue.enqueue("a".to_string()));
    assert_eq!(queue.len(), 1);
    assert!(queue.contains(&"a".to_string()));
}

#[test]
fn pop_pair_takes_the_two_oldest_in_order() {
    let mut queue = MatchmakingQueue::new();
    queue.enqueue("a".to_string());
    queue.enqueue("b".to_string());
    queue.enqueue("c".to_string());
    assert_eq!(queue.pop_pair(), Some(("a".to_string(), "b".to_string())));
    assert_eq!(queue.len(), 1);
    assert!(queue.contains(&"c".to_string()));
    assert!(!queue.contains(&"a".to_string()));
}

#[test]
fn pop_pair_leaves_a_single_waiter() {
    let mut queue = MatchmakingQueue::new();
    queue.enqueue("a".to_string());
    assert!(queue.pop_pair().is_none());
    assert_eq!(queue.len(), 1);
    assert!(queue.contains(&"a".to_string()));
}

#[test]
fn requeue_front_makes_the_token_the_oldest() {
    let mut queue = MatchmakingQueue::new();
    queue.enqueue("b".to_string());
    queue.enqueue("c".to_string());
    queue.requeue_front("a".to_string());
    assert_eq!(queue.len(), 3);
    assert_eq!(queue.pop_pair(), Some(("a".to_string(), "b".to_string())));
}

#[test]
fn requeue_front_keeps_a_token_that_waits_where_it_is() {
    let mut queue = MatchmakingQueue::new();
    queue.enqueue("a".to_string());
    queue.enqueue("b".to_string());
    queue.requeue_front("b".to_string());
    assert_eq!(queue.len(), 2);
    assert_eq!(queue.pop_pair(), Some(("a".to_string(), "b".to_string())));
}

#[test]
fn remove_takes_a_token_out_and_keeps_the_order() {
    let mut queue = MatchmakingQueue::new();
    queue.enqueue("a".to_string());
    queue.enqueue("b".to_string());
    queue.enqueue("c".to_string());
    assert!(queue.remove(&"b".to_string()));
    assert!(!queue.remove(&"b".to_string()));
    assert_eq!(queue.pop_pair(), Some(("a".to_string(), "c".to_string())));
}
