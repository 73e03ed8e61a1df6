use sm2::card::{Card, CardQueue, CardType};
use sm2::config::Config;
use sm2::interval::clamp_interval;
use sm2::scheduler::{Choice, Scheduler};

/// A card in review on day 20_000 of a scheduler whose day ends at the
/// start of day 20_001.
fn reviewing(interval: i32, ease_factor: i32, days_late: i64) -> Scheduler {
    let mut scheduler = Scheduler::new(Card::default(), Config::default(), 20_000 * 86_400 + 500);
    scheduler.card.card_type = CardType::Review;
    scheduler.card.card_queue = CardQueue::Review;
    scheduler.card.interval = interval;
    scheduler.card.ease_factor = ease_factor;
    scheduler.card.due = scheduler.day_today - days_late;
    scheduler
}

#[test]
fn the_day_number_belongs_to_the_cutoff() {
    let scheduler = Scheduler::new(Card::default(), Config::default(), 20_000 * 86_400 + 500);
    assert_eq!(scheduler.day_today, 20_000);
    assert_eq!(scheduler.day_cut_off, 20_000 * 86_400 + 500);
    let early = Scheduler::new(Card::default(), Config::default(), 86_399);
    assert_eq!(early.day_today, 0);
}

#[test]
fn clamp_keeps_an_interval_above_the_previous_and_below_the_maximum() {
    assert_eq!(clamp_interval(120, 100, 36_500), 120);
    assert_eq!(clamp_interval(50, 100, 36_500), 101);
    assert_eq!(clamp_interval(0, -5, 10), 1);
    assert_eq!(clamp_interval(-3, 0, 10), 1);
    assert_eq!(clamp_interval(500, 0, 365), 365);
    assert_eq!(clamp_interval(5, 9, 7), 7);
    assert_eq!(clamp_interval(i64::MAX, i32::MAX, i32::MAX), i32::MAX);
    assert_eq!(clamp_interval(i64::MIN, i32::MIN, i32::MAX), 1);
}

#[test]
fn unfuzzed_review_intervals() {
    let scheduler = reviewing(100, 2_500, 8);
    assert_eq!(scheduler.next_review_interval(Choice::Hard, false), 120);
    assert_eq!(scheduler.next_review_interval(Choice::Good, false), 260);
    assert_eq!(scheduler.next_review_interval(Choice::Easy, false), 351);
    assert_eq!(scheduler.next_interval(Choice::Hard), 120 * 86_400);
    assert_eq!(scheduler.next_interval(Choice::Good), 260 * 86_400);
    assert_eq!(scheduler.next_interval(Choice::Easy), 351 * 86_400);
}

#[test]
fn each_answer_exceeds_the_one_below() {
    let scheduler = reviewing(1, 0, 0);
    assert_eq!(scheduler.next_review_interval(Choice::Hard, false), 2);
    assert_eq!(scheduler.next_review_interval(Choice::Good, false), 3);
    assert_eq!(scheduler.next_review_interval(Choice::Easy, false), 4);
}

#[test]
fn a_hard_multiplier_of_one_sets_no_floor() {
    let mut scheduler = reviewing(10, 2_500, 0);
    scheduler.config.hard_multiplier = 1_000;
    assert_eq!(scheduler.next_review_interval(Choice::Hard, false), 10);
    scheduler.config.hard_multiplier = 500;
    assert_eq!(scheduler.next_review_interval(Choice::Hard, false), 5);
    scheduler.config.hard_multiplier = 1_001;
    assert_eq!(scheduler.next_review_interval(Choice::Hard, false), 11);
}

#[test]
fn the_interval_multiplier_scales_every_answer() {
    let mut scheduler = reviewing(100, 2_500, 8);
    scheduler.config.interval_multiplier = 500;
    assert_eq!(scheduler.next_review_interval(Choice::Hard, false), 101);
    assert_eq!(scheduler.next_review_interval(Choice::Good, false), 130);
    assert_eq!(scheduler.next_review_interval(Choice::Easy, false), 175);
}

#[test]
fn half_a_late_day_counts_for_good() {
    let scheduler = reviewing(10, 2_000, 1);
    // (10 + 0.5) * 2 = 21, (10 + 1) * 2 * 1.3 = 28.6
    assert_eq!(scheduler.next_review_interval(Choice::Good, false), 21);
    assert_eq!(scheduler.next_review_interval(Choice::Easy, false), 28);
}

#[test]
fn review_intervals_stop_at_the_maximum() {
    let mut scheduler = reviewing(30_000, 2_500, 0);
    assert_eq!(scheduler.next_review_interval(Choice::Hard, false), 36_000);
    assert_eq!(scheduler.next_review_interval(Choice::Good, false), 36_500);
    assert_eq!(scheduler.next_review_interval(Choice::Easy, false), 36_500);
    assert_eq!(scheduler.next_interval(Choice::Easy), 36_500 * 86_400);
    assert_eq!(scheduler.next_review_interval(Choice::Easy, true), 36_500);

    scheduler.card.interval = i32::MAX - 1;
    scheduler.card.ease_factor = i32::MAX - 150;
    scheduler.config.easy_multiplier = u32::MAX;
    scheduler.config.interval_multiplier = u32::MAX;
    scheduler.config.maximum_review_interval = i32::MAX;
    scheduler.card.due = scheduler.day_today - i32::MAX as i64;
    assert_eq!(scheduler.next_review_interval(Choice::Easy, false), i32::MAX);
    assert_eq!(scheduler.next_review_interval(Choice::Easy, true), i32::MAX);
}

#[test]
fn fuzzed_review_intervals_lie_in_the_fuzz_range() {
    let scheduler = reviewing(100, 2_500, 8);
    let mut distinct = std::collections::BTreeSet::new();
    for _ in 0..300 {
        let hard = scheduler.next_review_interval(Choice::Hard, true);
        assert!(114 <= hard && hard <= 126);
        let good = scheduler.next_review_interval(Choice::Good, true);
        assert!(247 <= good && good <= 273);
        let easy = scheduler.next_review_interval(Choice::Easy, true);
        assert!(334 <= easy && easy <= 368);
        distinct.insert(easy);
    }
    assert!(distinct.len() > 1);
}

#[test]
fn days_late_counts_whole_days_after_the_due_day() {
    assert_eq!(reviewing(1, 2_500, 8).days_late(), 8);
    assert_eq!(reviewing(1, 2_500, 0).days_late(), 0);
    assert_eq!(reviewing(1, 2_500, -3).days_late(), 0);
}

#[test]
fn lapse_interval_shrinks_and_is_bounded_below() {
    let mut scheduler = reviewing(100, 2_500, 0);
    assert_eq!(scheduler.lapse_interval(), 1);
    scheduler.config.lapse_multiplier = 500;
    assert_eq!(scheduler.lapse_interval(), 50);
    scheduler.config.minimum_review_interval = 70;
    assert_eq!(scheduler.lapse_interval(), 70);
    scheduler.config.minimum_review_interval = -4;
    scheduler.config.lapse_multiplier = 1;
    assert_eq!(scheduler.lapse_interval(), 1);
    scheduler.config.lapse_multiplier = u32::MAX;
    scheduler.card.interval = i32::MAX;
    assert_eq!(scheduler.lapse_interval(), i32::MAX);
}

#[test]
fn leeches_come_at_the_threshold_and_every_half_threshold_after() {
    let mut scheduler = reviewing(100, 2_500, 0);
    for lapses in 0..60 {
        scheduler.card.lapses = lapses;
        let expected = lapses >= 8 && (lapses - 8) % 4 == 0;
        assert_eq!(scheduler.check_leech(), expected);
    }
    scheduler.card.lapses = 8;
    assert!(scheduler.check_leech());
    scheduler.card.lapses = 10;
    assert!(!scheduler.check_leech());
    scheduler.card.lapses = 12;
    assert!(scheduler.check_leech());
    scheduler.card.lapses = 16;
    assert!(scheduler.check_leech());
}

#[test]
fn leech_thresholds_at_the_edges() {
    let mut scheduler = reviewing(100, 2_500, 0);
    scheduler.config.leech_threshold = 0;
    for lapses in 0..20 {
        scheduler.card.lapses = lapses;
        assert!(!scheduler.check_leech());
    }
    scheduler.config.leech_threshold = 1;
    for lapses in 1..20 {
        scheduler.card.lapses = lapses;
        assert!(scheduler.check_leech());
    }
    scheduler.card.lapses = 0;
    assert!(!scheduler.check_leech());
    scheduler.config.leech_threshold = 3;
    scheduler.card.lapses = 4;
    assert!(scheduler.check_leech());
}

#[test]
fn a_review_moves_the_ease_factor_and_keeps_the_floor() {
    for (choice, ease, expected) in [
        (Choice::Hard, 2_500, 2_350),
        (Choice::Good, 2_500, 2_500),
        (Choice::Easy, 2_500, 2_650),
        (Choice::Hard, 1_400, 1_300),
        (Choice::Hard, 1_300, 1_300),
        (Choice::Good, 0, 1_300),
        (Choice::Again, 2_500, 2_300),
        (Choice::Again, 1_450, 1_300),
    ] {
        let mut scheduler = reviewing(100, ease, 0);
        scheduler.answer_at(choice, 1_700_000_000);
        assert_eq!(scheduler.card.ease_factor, expected);
        assert_eq!(scheduler.card.reps, 1);
    }
}

#[test]
fn a_long_run_of_reviews_keeps_the_ease_floor() {
    let mut scheduler = reviewing(10, 2_500, 0);
    let choices = [Choice::Hard, Choice::Hard, Choice::Again, Choice::Good, Choice::Hard];
    for round in 0..200 {
        if scheduler.card.card_queue == CardQueue::Suspended {
            scheduler.unsuspend_card();
        }
        scheduler.answer_at(choices[round % choices.len()], 1_700_000_000);
        assert!(scheduler.card.ease_factor >= 1_300);
        assert!(scheduler.card.interval >= 1);
    }
}

#[test]
fn the_seventh_lapse_is_no_leech_but_the_eighth_is() {
    let mut scheduler = reviewing(100, 2_500, 0);
    scheduler.card.lapses = 6;
    scheduler.answer_at(Choice::Again, 1_700_000_000);
    assert_eq!(scheduler.card.lapses, 7);
    assert_eq!(scheduler.card.card_queue, CardQueue::Learn);
    assert_eq!(scheduler.card.card_type, CardType::Relearn);

    let mut scheduler = reviewing(100, 2_500, 0);
    scheduler.card.lapses = 7;
    scheduler.answer_at(Choice::Again, 1_700_000_000);
    assert_eq!(scheduler.card.lapses, 8);
    assert_eq!(scheduler.card.card_queue, CardQueue::Suspended);
    assert_eq!(scheduler.card.card_type, CardType::Review);
    assert_eq!(scheduler.card.interval, 1);
    assert_eq!(scheduler.card.due, scheduler.day_today + 1);
    assert_eq!(scheduler.card.ease_factor, 2_300);
}

#[test]
fn an_answer_on_a_hidden_card_is_only_counted() {
    for queue in [CardQueue::Suspended, CardQueue::Buried] {
        let mut scheduler = reviewing(100, 2_500, 0);
        scheduler.card.card_queue = queue;
        let before = scheduler.card;
        scheduler.answer_at(Choice::Good, 1_700_000_000);
        assert_eq!(scheduler.card, Card { reps: before.reps + 1, ..before });
    }
}

#[test]
fn pass_through_fields_do_not_change_an_answer() {
    let plain = reviewing(100, 2_500, 8);
    let mut other = reviewing(100, 2_500, 8);
    other.config.cap_answer_time = 5;
    other.config.visible_time = 9;
    other.config.new_per_day = 0;
    other.config.reviews_per_day = 1;
    other.config.bury_new = true;
    other.config.bury_reviews = true;
    other.config.new_card_order = sm2::config::NewCardOrder::Random;
    for choice in [Choice::Again, Choice::Hard, Choice::Good, Choice::Easy] {
        assert_eq!(plain.next_interval(choice), other.next_interval(choice));
    }
}

#[test]
fn early_review_intervals() {
    let mut card = Card::default();
    card.card_type = CardType::Review;
    card.card_queue = CardQueue::Review;
    card.interval = 2;
    card.ease_factor = 2_500;
    let mut scheduler = Scheduler::new(card, Config::default(), 10 * 86_400 + 5);
    assert_eq!(scheduler.day_today, 10);
    // Twelve days, times 1.2, times 2.5, and times 2.5 and 1.15.
    assert_eq!(scheduler.early_review_interval(Choice::Hard), 14);
    assert_eq!(scheduler.early_review_interval(Choice::Good), 30);
    assert_eq!(scheduler.early_review_interval(Choice::Easy), 34);

    scheduler.config.interval_multiplier = 500;
    assert_eq!(scheduler.early_review_interval(Choice::Good), 15);
    scheduler.config.interval_multiplier = 0;
    assert_eq!(scheduler.early_review_interval(Choice::Good), 1);
    scheduler.config.interval_multiplier = 1_000;
    scheduler.config.maximum_review_interval = 20;
    assert_eq!(scheduler.early_review_interval(Choice::Good), 20);
    scheduler.config.maximum_review_interval = i32::MAX;
    scheduler.config.interval_multiplier = u32::MAX;
    scheduler.config.easy_multiplier = u32::MAX;
    scheduler.card.ease_factor = i32::MAX;
    assert_eq!(scheduler.early_review_interval(Choice::Easy), i32::MAX);
}

#[test]
fn an_early_hard_review_keeps_a_share_of_the_interval() {
    let mut card = Card::default();
    card.card_type = CardType::Review;
    card.card_queue = CardQueue::Review;
    card.interval = 3;
    card.ease_factor = 2_500;
    let mut scheduler = Scheduler::new(card, Config::default(), -200_000);
    assert_eq!(scheduler.day_today, -2);
    scheduler.config.hard_multiplier = 4_000;
    // One day since the epoch times 4 is less than 3 days times 2.
    assert_eq!(scheduler.early_review_interval(Choice::Hard), 6);
    // Days before the epoch count as one day.
    scheduler.card.interval = 1;
    assert_eq!(scheduler.early_review_interval(Choice::Good), 1);
    assert_eq!(scheduler.early_review_interval(Choice::Easy), 1);
}
