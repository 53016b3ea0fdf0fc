use crawley::queue::already_exists_decider::ItemAlreadyExistsDecider;
use crawley::queue::queue_addition_decider::QueueAdditionDecider;
use flurry::HashSet;

#[test]
fn should_decide_true_when_link_not_already_in_queue() {
    let queue = HashSet::<String>::new();
    queue.insert("http://domain.com/page1.html".to_string(), &queue.guard());
    let processed = HashSet::<String>::new();
    let decider = ItemAlreadyExistsDecider::new(&queue, &processed);

    let decision = decider.can_add_to_queue("http://domain.com/page2.html");

    assert!(decision)
}

#[test]
fn should_decide_true_when_link_not_already_in_processed() {
    let queue = HashSet::<String>::new();
    let processed = HashSet::<String>::new();
    processed.insert("http://domain.com/page1.html".to_string(), &processed.guard());
    let decider = ItemAlreadyExistsDecider::new(&queue, &processed);

    let decision = decider.can_add_to_queue("http://domain.com/page2.html");

    assert!(decision)
}

#[test]
fn should_decide_false_when_link_already_in_queue() {
    let queue = HashSet::<String>::new();
    queue.insert("http://domain.com/page1.html".to_string(), &queue.guard());
    let processed = HashSet::<String>::new();
    let decider = ItemAlreadyExistsDecider::new(&queue, &processed);

    let decision = decider.can_add_to_queue("http://domain.com/page1.html");

    assert!(!decision)
}

#[test]
fn should_decide_false_when_link_already_in_processed() {
    let queue = HashSet::<String>::new();
    let processed = HashSet::<String>::new();
    processed.insert("http://domain.com/page1.html".to_string(), &processed.guard());
    let decider = ItemAlreadyExistsDecider::new(&queue, &processed);

    let decision = decider.can_add_to_queue("http://domain.com/page1.html");

    assert!(!decision)
}
