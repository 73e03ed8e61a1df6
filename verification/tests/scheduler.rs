use sm2::card::{Card, CardQueue, CardType, INITIAL_EASE_FACTOR};
use sm2::config::Config;
use sm2::scheduler::{Choice, Scheduler, SchedulerError};
use sm2::timestamp::Timestamp;

/// A day cutoff that lies at least twelve hours after now, so that the
/// steps of a few minutes always fit before it.
fn far_cut_off() -> i64 {
    let now = Timestamp::now();
    let cut_off = Timestamp::day_cut_off(now, 0);
    if cut_off - now >= 43_200 {
        cut_off
    } else {
        Timestamp::day_cut_off(now, 720)
    }
}

fn fresh_scheduler() -> Scheduler {
    Scheduler::new(Card::default(), Config::default(), far_cut_off())
}

fn check_interval(card: &Card, interval: i32) -> bool {
    let (min, max) = Scheduler::fuzz_interval_range(interval);
    card.interval >= min && card.interval <= max
}

#[test]
fn scheduler_test_new() {
    let mut scheduler = fresh_scheduler();
    scheduler.answer_card(Choice::Again);
    assert!(matches!(scheduler.card.card_queue, CardQueue::Learn));
    assert!(matches!(scheduler.card.card_type, CardType::Learn));
    assert!(scheduler.card.due >= Timestamp::now());
}

#[test]
fn test_change_steps() {
    let mut scheduler = fresh_scheduler();
    scheduler.config.learn_steps = vec![60, 120, 180, 240, 300];
    scheduler.answer(Choice::Good);
    scheduler.config.learn_steps = vec![60];
    scheduler.answer(Choice::Good);
}

#[test]
fn test_learn() {
    let mut scheduler = fresh_scheduler();

    // Fail it
    scheduler.config.learn_steps = vec![30, 180, 600];
    scheduler.answer(Choice::Again);
    // Got 3 steps before graduation
    assert_eq!(scheduler.card.remaining_steps % 1_000, 3);
    assert_eq!(scheduler.card.remaining_steps / 1_000, 3);
    // Due in 30 seconds
    let t1 = scheduler.card.due - Timestamp::now();
    assert!(t1 >= 25 && t1 <= 40);

    // Pass it once
    scheduler.answer(Choice::Good);
    // Due in 3 minutes
    let t2 = scheduler.card.due - Timestamp::now();
    assert!(t2 >= 178 && t2 <= 225);
    assert_eq!(scheduler.card.remaining_steps % 1_000, 2);
    assert_eq!(scheduler.card.remaining_steps / 1_000, 2);

    // Pass again
    scheduler.answer(Choice::Good);
    // Due in 10 minutes
    let t3 = scheduler.card.due - Timestamp::now();
    assert!(t3 >= 599 && t3 <= 750);
    assert_eq!(scheduler.card.remaining_steps % 1_000, 1);
    assert_eq!(scheduler.card.remaining_steps / 1_000, 1);

    // Graduate the card
    assert!(matches!(scheduler.card.card_type, CardType::Learn));
    assert!(matches!(scheduler.card.card_queue, CardQueue::Learn));
    scheduler.answer(Choice::Good);
    assert!(matches!(scheduler.card.card_type, CardType::Review));
    assert!(matches!(scheduler.card.card_queue, CardQueue::Review));
    // Due tomorrow with interval of 1
    assert_eq!(scheduler.card.due, scheduler.day_today + 1);
    assert_eq!(scheduler.card.interval, 1);
    // Or normal removal
    scheduler.card.card_type = CardType::New;
    scheduler.card.card_queue = CardQueue::Learn;
    scheduler.answer(Choice::Easy);
    assert!(matches!(scheduler.card.card_type, CardType::Review));
    assert!(matches!(scheduler.card.card_queue, CardQueue::Review));
    assert!(check_interval(&scheduler.card, 4));
}

#[test]
fn test_relearn() {
    let mut scheduler = fresh_scheduler();
    scheduler.card.interval = 100;
    scheduler.card.due = scheduler.day_today;
    scheduler.card.card_queue = CardQueue::Review;
    scheduler.card.card_type = CardType::Review;

    // Fail the card
    scheduler.answer(Choice::Again);
    assert!(matches!(scheduler.card.card_type, CardType::Relearn));
    assert!(matches!(scheduler.card.card_queue, CardQueue::Learn));
    assert_eq!(scheduler.card.interval, 1);

    // Immediately graduate it
    scheduler.answer(Choice::Easy);
    assert!(matches!(scheduler.card.card_type, CardType::Review));
    assert!(matches!(scheduler.card.card_queue, CardQueue::Review));
    assert_eq!(scheduler.card.interval, 2);
    assert_eq!(
        scheduler.card.due,
        scheduler.day_today + scheduler.card.interval as i64
    );
}

#[test]
fn test_relearn_no_steps() {
    let mut scheduler = fresh_scheduler();
    scheduler.card.interval = 100;
    scheduler.card.due = scheduler.day_today;
    scheduler.card.card_queue = CardQueue::Review;
    scheduler.card.card_type = CardType::Review;

    scheduler.config.relearn_steps = vec![];
    // Fail the card
    scheduler.answer(Choice::Again);
    assert!(matches!(scheduler.card.card_type, CardType::Review));
    assert!(matches!(scheduler.card.card_queue, CardQueue::Review));
}

#[test]
fn test_learn_day() {
    let mut scheduler = fresh_scheduler();

    scheduler.config.learn_steps = vec![60, 600, 1440 * 60, 2880 * 60];

    // Pass it
    scheduler.answer(Choice::Good);
    assert_eq!(scheduler.card.remaining_steps % 1_000, 3);
    assert_eq!(scheduler.card.remaining_steps / 1_000, 1);
    assert_eq!(scheduler.next_interval(Choice::Good), 86_400);

    // Learn it
    scheduler.answer(Choice::Good);
    assert_eq!(scheduler.card.due, scheduler.day_today + 1);
    assert!(matches!(scheduler.card.card_queue, CardQueue::DayLearn));

    // Move back a day
    scheduler.card.due -= 1;
    assert_eq!(scheduler.next_interval(Choice::Good), 86_400 * 2);

    // Fail to answer it
    scheduler.answer(Choice::Again);
    assert!(matches!(scheduler.card.card_queue, CardQueue::Learn));

    // Ok to answer it
    scheduler.answer(Choice::Good);
    assert_eq!(scheduler.next_interval(Choice::Good), 86_400);
    assert!(matches!(scheduler.card.card_queue, CardQueue::Learn));
}

#[test]
fn test_review() {
    let mut scheduler = fresh_scheduler();

    scheduler.card.card_type = CardType::Review;
    scheduler.card.card_queue = CardQueue::Review;
    scheduler.card.due = scheduler.day_today - 8;
    scheduler.card.ease_factor = INITIAL_EASE_FACTOR;
    scheduler.card.reps = 3;
    scheduler.card.lapses = 1;
    scheduler.card.interval = 100;

    let card_copy = scheduler.card.clone();

    // Hard
    scheduler.answer(Choice::Hard);
    assert!(matches!(scheduler.card.card_queue, CardQueue::Review));
    assert!(check_interval(&scheduler.card, 120));
    assert_eq!(
        scheduler.card.due,
        scheduler.day_today + scheduler.card.interval as i64
    );
    assert_eq!(scheduler.card.ease_factor, 2_350);
    assert_eq!(scheduler.card.lapses, 1);
    assert_eq!(scheduler.card.reps, 4);

    // Ok
    scheduler.card = card_copy.clone();
    scheduler.answer(Choice::Good);
    assert!(matches!(scheduler.card.card_queue, CardQueue::Review));
    assert!(check_interval(&scheduler.card, 260));
    assert_eq!(
        scheduler.card.due,
        scheduler.day_today + scheduler.card.interval as i64
    );
    assert_eq!(scheduler.card.ease_factor, INITIAL_EASE_FACTOR);

    // Easy
    scheduler.card = card_copy.clone();
    scheduler.answer(Choice::Easy);
    assert!(matches!(scheduler.card.card_queue, CardQueue::Review));
    assert!(check_interval(&scheduler.card, 351));
    assert_eq!(
        scheduler.card.due,
        scheduler.day_today + scheduler.card.interval as i64
    );
    assert_eq!(scheduler.card.ease_factor, 2_650);

    // Leech
    scheduler.card = card_copy.clone();
    scheduler.card.lapses = 7;
    scheduler.answer(Choice::Again);
    assert!(matches!(scheduler.card.card_queue, CardQueue::Suspended));
}

#[test]
fn test_spacing_button() {
    let mut scheduler = fresh_scheduler();
    scheduler.card.card_type = CardType::Review;
    scheduler.card.card_queue = CardQueue::Review;
    scheduler.card.due = scheduler.day_today;
    scheduler.card.reps = 1;
    scheduler.card.interval = 1;

    assert_eq!(scheduler.next_interval_string(Choice::Hard), "2d");
    assert_eq!(scheduler.next_interval_string(Choice::Good), "3d");
    assert_eq!(scheduler.next_interval_string(Choice::Easy), "4d");

    // Hard multiplier = 1, not increase day
    scheduler.config.hard_multiplier = 1_000;
    assert_eq!(scheduler.next_interval_string(Choice::Hard), "1d");
}

#[test]
fn test_bury() {
    let mut scheduler = fresh_scheduler();

    scheduler.bury_card();
    assert!(matches!(scheduler.card.card_queue, CardQueue::Buried));

    scheduler.unbury_card();
    assert!(matches!(scheduler.card.card_queue, CardQueue::New));
}

#[test]
fn test_suspend() {
    let mut scheduler = fresh_scheduler();

    scheduler.card.due = scheduler.day_today;
    scheduler.card.interval = 100;
    scheduler.card.card_queue = CardQueue::Review;
    scheduler.card.card_type = CardType::Review;

    scheduler.answer(Choice::Again);
    assert!(scheduler.card.due > Timestamp::now());
    assert!(matches!(scheduler.card.card_type, CardType::Relearn));
    assert!(matches!(scheduler.card.card_queue, CardQueue::Learn));

    let due = scheduler.card.due;
    scheduler.suspend_card();
    scheduler.unsuspend_card();

    assert!(matches!(scheduler.card.card_type, CardType::Relearn));
    assert!(matches!(scheduler.card.card_queue, CardQueue::Learn));
    assert_eq!(scheduler.card.due, due);
}

#[test]
fn test_reschedule() {
    let mut scheduler = fresh_scheduler();

    assert_eq!(scheduler.schedule_card_as_review(0, 0), Ok(()));
    assert_eq!(scheduler.card.due, scheduler.day_today);
    assert_eq!(scheduler.card.interval, 1);
    assert!(matches!(scheduler.card.card_queue, CardQueue::Review));
    assert!(matches!(scheduler.card.card_type, CardType::Review));

    assert_eq!(scheduler.schedule_card_as_review(1, 1), Ok(()));
    assert_eq!(scheduler.card.due, scheduler.day_today + 1);
    assert_eq!(scheduler.card.interval, 1);

    scheduler.schedule_card_as_new(0);
    assert_eq!(scheduler.card.due, 0);
    assert!(matches!(scheduler.card.card_queue, CardQueue::New));
    assert!(matches!(scheduler.card.card_type, CardType::New));
}

#[test]
fn reschedule_refuses_a_range_upside_down() {
    let mut scheduler = fresh_scheduler();
    let before = scheduler.card;
    assert_eq!(
        scheduler.schedule_card_as_review(5, 4),
        Err(SchedulerError::InvalidRange)
    );
    assert_eq!(scheduler.card, before);
}

#[test]
fn reschedule_draws_within_the_range() {
    let mut seen_low = false;
    let mut seen_high = false;
    for _ in 0..400 {
        let mut scheduler = fresh_scheduler();
        assert_eq!(scheduler.schedule_card_as_review(3, 6), Ok(()));
        let interval = scheduler.card.interval;
        assert!(interval >= 3 && interval <= 6);
        assert_eq!(scheduler.card.due, scheduler.day_today + interval as i64);
        assert_eq!(scheduler.card.ease_factor, INITIAL_EASE_FACTOR);
        seen_low = seen_low || interval == 3;
        seen_high = seen_high || interval == 6;
    }
    assert!(seen_low && seen_high);
}
