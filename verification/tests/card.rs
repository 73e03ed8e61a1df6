use sm2::card::{Card, CardQueue, CardType, INITIAL_EASE_FACTOR};

#[test]
fn test_set_new_position() {
    let mut card = Card::default();
    card.set_new_position(1);
    assert_eq!(card.due, 1);

    card.card_queue = CardQueue::Review;
    card.card_type = CardType::Review;
    card.set_new_position(2);
    assert_eq!(card.due, 1);
}

#[test]
fn a_new_card_is_blank() {
    let card = Card::new(7);
    assert_eq!(card.due, 7);
    assert_eq!(card.card_type, CardType::New);
    assert_eq!(card.card_queue, CardQueue::New);
    assert_eq!(card.interval, 0);
    assert_eq!(card.ease_factor, 0);
    assert_eq!(card.reps, 0);
    assert_eq!(card.lapses, 0);
    assert_eq!(card.remaining_steps, 0);
    assert_eq!(Card::default(), Card::new(0));
}

#[test]
fn schedule_as_new_resets_state_and_ease() {
    let mut card = Card::new(0);
    card.schedule_as_review(12, 100);
    card.ease_factor = 1_700;
    card.reps = 9;
    card.lapses = 2;
    card.schedule_as_new(5);
    assert_eq!(card.card_type, CardType::New);
    assert_eq!(card.card_queue, CardQueue::New);
    assert_eq!(card.due, 5);
    assert_eq!(card.interval, 0);
    assert_eq!(card.ease_factor, INITIAL_EASE_FACTOR);
    assert_eq!(card.reps, 9);
    assert_eq!(card.lapses, 2);
}

#[test]
fn schedule_as_review_keeps_an_ease_that_is_set() {
    let mut card = Card::new(0);
    card.schedule_as_review(0, 100);
    assert_eq!(card.interval, 1);
    assert_eq!(card.due, 100);
    assert_eq!(card.ease_factor, INITIAL_EASE_FACTOR);
    assert_eq!(card.card_type, CardType::Review);
    assert_eq!(card.card_queue, CardQueue::Review);

    card.ease_factor = 1_300;
    card.schedule_as_review(30, 200);
    assert_eq!(card.interval, 30);
    assert_eq!(card.due, 230);
    assert_eq!(card.ease_factor, 1_300);
}
