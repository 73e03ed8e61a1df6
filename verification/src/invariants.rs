//! What every answer keeps true, stated over the model of an answer.

use crate::card::{Card, CardQueue, CardType};
use crate::config::MINIMUM_EASE_FACTOR;
use crate::fuzz::{fuzz_fits, in_fuzz_range, lemma_fuzz_range_valid};
use crate::review::{ease_after_answer, ease_after_lapse};
use crate::interval::{is_leech, scaled};
use crate::scheduler::{Chance, Choice, Scheduler};
use crate::steps::{
    last_steps, learn_placement, reachable_steps, repeat_delay, step_delay,
    steps_before_cut_off,
};
use vstd::prelude::*;

verus! {

/// An answer on a card in review moves the ease factor by the step of the
/// answer, 200 down for again, 150 down for hard, none for good and 150 up
/// for easy, and never below the floor.
pub proof fn lemma_ease_after_review(
    scheduler: Scheduler,
    choice: Choice,
    now: int,
    chance: Chance,
)
    requires
        scheduler.card.card_queue == CardQueue::Review,
        choice == Choice::Easy ==> scheduler.card.ease_factor <= i32::MAX - 150,
        scheduler.answered(choice, now, chance).is_some(),
    ensures
        scheduler.answered(choice, now, chance).unwrap().ease_factor == ease_after_answer(
            scheduler.card.ease_factor as int,
            choice,
        ),
        scheduler.answered(choice, now, chance).unwrap().ease_factor >= MINIMUM_EASE_FACTOR,
{
}

/// The ease factor never falls below the floor: an answer on a card in
/// review leaves it at the floor or above, and so does any answer on a card
/// whose ease factor is there already. So it stays there through every
/// sequence of answers that starts with a review.
pub proof fn lemma_ease_floor(scheduler: Scheduler, choice: Choice, now: int, chance: Chance)
    requires
        scheduler.card.card_queue == CardQueue::Review && choice == Choice::Easy
            ==> scheduler.card.ease_factor <= i32::MAX - 150,
        scheduler.config.initial_ease >= MINIMUM_EASE_FACTOR,
        scheduler.card.card_queue == CardQueue::Review || scheduler.card.ease_factor
            >= MINIMUM_EASE_FACTOR,
        scheduler.answered(choice, now, chance).is_some(),
    ensures
        scheduler.answered(choice, now, chance).unwrap().ease_factor >= MINIMUM_EASE_FACTOR,
{
}

/// An easy answer on a card in its first learning graduates it with an
/// interval from the fuzz range of the easy graduating interval, which is
/// at least one day, and makes it due after that interval.
pub proof fn lemma_easy_graduation(scheduler: Scheduler, now: int, chance: Chance)
    requires
        scheduler.config.graduating_interval_easy >= 0,
        fuzz_fits(scheduler.config.graduating_interval_easy as int),
        scheduler.dated(),
        scheduler.first_learning(),
        scheduler.answered(Choice::Easy, now, chance).is_some(),
    ensures
        ({
            let after = scheduler.answered(Choice::Easy, now, chance).unwrap();
            &&& in_fuzz_range(
                scheduler.config.graduating_interval_easy as int,
                after.interval as int,
            )
            &&& after.interval >= 1
            &&& after.card_type == CardType::Review
            &&& after.card_queue == CardQueue::Review
            &&& after.due == scheduler.day_today + after.interval
        }),
{
    lemma_fuzz_range_valid(scheduler.config.graduating_interval_easy as int);
}

/// A failed review counts as a lapse, and a card that the lapse makes a
/// leech is suspended.
pub proof fn lemma_leech_is_suspended(scheduler: Scheduler, now: int, chance: Chance)
    requires
        scheduler.card.card_queue == CardQueue::Review,
        scheduler.card.lapses < i32::MAX,
        scheduler.answered(Choice::Again, now, chance).is_some(),
    ensures
        scheduler.answered(Choice::Again, now, chance).unwrap().lapses == scheduler.card.lapses
            + 1,
        is_leech(scheduler.card.lapses + 1, scheduler.config.leech_threshold as int)
            ==> scheduler.answered(Choice::Again, now, chance).unwrap().card_queue
            == CardQueue::Suspended,
{
}

/// A card that is in review, or was and is relearned, keeps an interval of
/// at least one day through every answer, and a card that enters review
/// gets one.
pub proof fn lemma_review_interval_positive(
    scheduler: Scheduler,
    choice: Choice,
    now: int,
    chance: Chance,
)
    requires
        scheduler.wf(),
        scheduler.within_limits(),
        scheduler.seen_review() ==> scheduler.card.interval >= 1,
        scheduler.answered(choice, now, chance).is_some(),
    ensures
        ({
            let after = scheduler.answered(choice, now, chance).unwrap();
            after.card_type == CardType::Review || after.card_type == CardType::Relearn
                ==> after.interval >= 1
        }),
{
    lemma_fuzz_range_valid(scheduler.config.graduating_interval_easy as int);
    lemma_fuzz_range_valid(scheduler.config.graduating_interval_good as int);
}

/// The preview of a review is an interval that the answer can give: for
/// some possible draws the answered card waits exactly the previewed days.
pub proof fn lemma_review_preview_is_possible(scheduler: Scheduler, choice: Choice, now: int)
    requires
        scheduler.wf(),
        scheduler.within_limits(),
        scheduler.card.card_queue == CardQueue::Review,
        choice != Choice::Again,
    ensures
        exists|chance: Chance|
            {
                &&& (#[trigger] scheduler.answered(choice, now, chance)).is_some()
                &&& scheduler.answered(choice, now, chance).unwrap().interval * 86_400
                    == scheduler.preview(choice)
            },
{
    let ideal = scheduler.unfuzzed();
    let chance = Chance {
        jitter: 0,
        graduation: 0,
        hard: at_least_one(ideal.hard),
        good: at_least_one(ideal.good),
        easy: at_least_one(ideal.easy),
    };
    lemma_scaled_not_negative(
        scheduler.card.interval * scheduler.config.hard_multiplier,
        1_000,
        scheduler.config.interval_multiplier as int,
    );
    lemma_scaled_not_negative(
        (2 * scheduler.card.interval + scheduler.lateness()) * scheduler.card.ease_factor,
        2_000,
        scheduler.config.interval_multiplier as int,
    );
    lemma_scaled_not_negative(
        (scheduler.card.interval + scheduler.lateness()) * scheduler.card.ease_factor
            * scheduler.config.easy_multiplier,
        1_000_000,
        scheduler.config.interval_multiplier as int,
    );
    lemma_fuzz_range_valid(chance.hard);
    lemma_fuzz_range_valid(chance.good);
    lemma_fuzz_range_valid(chance.easy);
    let counted = scheduler.with_card(scheduler.entered(now));
    assert(counted.review_days(choice, chance) == scheduler.review_days(choice, ideal));
    assert(scheduler.answered(choice, now, chance).is_some());
}

/// No more steps fit before the cutoff than there are.
pub proof fn lemma_reachable_steps_bound(steps: Seq<u32>, now: int, cut_off: int)
    ensures
        reachable_steps(steps, now, cut_off) <= steps.len(),
    decreases steps.len(),
{
    if steps.len() > 0 && now + steps[0] <= cut_off {
        lemma_reachable_steps_bound(steps.drop_first(), now + steps[0], cut_off);
    }
}

/// The preview of an answer on a card that is being learned is what the
/// answer can give. Where the answer makes the card wait on a step, the
/// card is placed as the previewed wait says when no jitter is drawn.
/// Where the answer graduates the card, the card waits the previewed days
/// for some possible draw, unless it graduates for the first time with a
/// graduating interval of no days, which the fuzz raises to one.
pub proof fn lemma_learn_preview_is_possible(scheduler: Scheduler, choice: Choice, now: int)
    requires
        scheduler.wf(),
        scheduler.within_limits(),
        scheduler.learning(),
        i64::MIN <= now <= i64::MAX,
    ensures
        exists|chance: Chance|
            {
                &&& (#[trigger] scheduler.answered(choice, now, chance)) matches Some(after)
                &&& after.card_queue != CardQueue::Review ==> {
                    let place = learn_placement(
                        now,
                        scheduler.preview(choice),
                        0,
                        scheduler.day_cut_off as int,
                        scheduler.day_today as int,
                    );
                    after.card_queue == place.0 && after.due == place.1
                }
                &&& after.card_queue == CardQueue::Review && (scheduler.at_answer().seen_review()
                    || scheduler.graduating_days(choice == Choice::Easy) >= 1) ==> after.interval
                    * 86_400 == scheduler.preview(choice)
            },
{
    let early = choice == Choice::Easy;
    let chance = Chance {
        jitter: 0,
        graduation: at_least_one(scheduler.graduating_days(early)),
        hard: 0,
        good: 0,
        easy: 0,
    };
    lemma_entered(scheduler, now);
    let entered = scheduler.with_card(scheduler.entered(now));
    let steps = scheduler.config.learn_steps@;
    let graduates = early || (choice == Choice::Good && entered.card.steps_left() <= 1);
    if graduates {
        lemma_fuzz_range_valid(scheduler.graduating_days(early));
        assert(entered.graduated(early, chance.graduation).is_some());
        assert(scheduler.answered(choice, now, chance) == entered.graduated(
            early,
            chance.graduation,
        ));
    } else if choice == Choice::Good {
        lemma_next_step(entered, now);
        assert(scheduler.answered(choice, now, chance) == entered.next_step(now, 0));
    } else if choice == Choice::Hard {
        lemma_placed_without_jitter(
            entered,
            repeat_delay(steps, entered.card.remaining_steps as int),
            now,
        );
        assert(scheduler.answered(choice, now, chance) == entered.repeated_step(now, 0));
    } else {
        lemma_first_step(entered, steps, now);
        assert(scheduler.answered(choice, now, chance) == entered.first_step(steps, now, 0));
    }
}

/// The preview of a failed review is what the answer gives to a card that
/// the lapse does not make a leech. With relearning steps the card is
/// placed as the previewed wait says when no jitter is drawn; without
/// them a card of the review kind waits the previewed days.
pub proof fn lemma_lapse_preview_is_possible(scheduler: Scheduler, now: int)
    requires
        scheduler.wf(),
        scheduler.within_limits(),
        scheduler.card.card_queue == CardQueue::Review,
        !is_leech(scheduler.card.lapses + 1, scheduler.config.leech_threshold as int),
        i64::MIN <= now <= i64::MAX,
    ensures
        exists|chance: Chance|
            {
                &&& (#[trigger] scheduler.answered(Choice::Again, now, chance)) matches Some(after)
                &&& scheduler.config.relearn_steps@.len() > 0 ==> {
                    let place = learn_placement(
                        now,
                        scheduler.preview(Choice::Again),
                        0,
                        scheduler.day_cut_off as int,
                        scheduler.day_today as int,
                    );
                    after.card_queue == place.0 && after.due == place.1
                }
                &&& scheduler.config.relearn_steps@.len() == 0 && scheduler.seen_review()
                    ==> after.interval * 86_400 == scheduler.preview(Choice::Again)
            },
{
    let chance = Chance {
        jitter: 0,
        graduation: at_least_one(scheduler.graduating_days(false)),
        hard: 0,
        good: 0,
        easy: 0,
    };
    lemma_fuzz_range_valid(scheduler.graduating_days(false));
    let relearn = scheduler.config.relearn_steps@;
    let entered = scheduler.entered(now);
    let failed = Card {
        lapses: (entered.lapses + 1) as i32,
        ease_factor: ease_after_lapse(entered.ease_factor as int) as i32,
        ..entered
    };
    if relearn.len() > 0 {
        let relearning = scheduler.with_card(Card { card_type: CardType::Relearn, ..failed });
        lemma_first_step(relearning, relearn, now);
        assert(step_delay(relearn, relearn.len() as int) == relearn[0]);
        assert(scheduler.answered(Choice::Again, now, chance) == relearning.first_step(
            relearn,
            now,
            0,
        ));
    } else {
        assert(scheduler.answered(Choice::Again, now, chance).is_some());
    }
}

/// What entering an answer changes of a card that is being learned: the
/// answer is counted, and a new card starts its learning steps.
proof fn lemma_entered(scheduler: Scheduler, now: int)
    requires
        scheduler.wf(),
        scheduler.within_limits(),
        scheduler.learning(),
    ensures
        ({
            let entered = scheduler.entered(now);
            let found = scheduler.at_answer().card;
            &&& entered.card_queue == found.card_queue
            &&& entered.card_type == found.card_type
            &&& entered.interval == found.interval
            &&& entered.ease_factor == found.ease_factor
            &&& entered.remaining_steps >= 0
            &&& entered.remaining_steps % 1_000 == found.remaining_steps % 1_000
            &&& entered.card_queue != CardQueue::New
            &&& entered.card_queue != CardQueue::Review
            &&& scheduler.with_card(entered).wf()
        }),
{
    let learn = scheduler.config.learn_steps@;
    lemma_reachable_steps_bound(
        last_steps(learn, learn.len() as int),
        now,
        scheduler.day_cut_off as int,
    );
}

/// A card that waits without jitter is placed as `learn_placement` says.
proof fn lemma_placed_without_jitter(scheduler: Scheduler, delay: int, now: int)
    requires
        scheduler.dated(),
        0 <= delay <= 2 * u32::MAX,
        i64::MIN <= now <= i64::MAX,
    ensures
        ({
            let place = learn_placement(
                now,
                delay,
                0,
                scheduler.day_cut_off as int,
                scheduler.day_today as int,
            );
            &&& scheduler.placed(delay, now, 0) matches Some(after)
            &&& after.card_queue == place.0
            &&& after.due == place.1
            &&& after.card_queue != CardQueue::Review
        }),
{
}

/// The card after it moved on to the next step without jitter.
proof fn lemma_next_step(scheduler: Scheduler, now: int)
    requires
        scheduler.wf(),
        scheduler.card.steps_left() > 1,
        i64::MIN <= now <= i64::MAX,
    ensures
        ({
            let delay = step_delay(scheduler.config.learn_steps@, scheduler.card.steps_left() - 1);
            let place = learn_placement(
                now,
                delay,
                0,
                scheduler.day_cut_off as int,
                scheduler.day_today as int,
            );
            &&& scheduler.next_step(now, 0) matches Some(after)
            &&& after.card_queue == place.0
            &&& after.due == place.1
            &&& after.card_queue != CardQueue::Review
        }),
{
    let steps = scheduler.config.learn_steps@;
    let left = scheduler.card.steps_left() - 1;
    lemma_reachable_steps_bound(last_steps(steps, left), now, scheduler.day_cut_off as int);
    let packed = steps_before_cut_off(steps, left, now, scheduler.day_cut_off as int) * 1_000
        + left;
    assert(packed % 1_000 == left);
    assert(step_delay(steps, packed) == step_delay(steps, left));
    lemma_placed_without_jitter(
        scheduler.with_card(Card { remaining_steps: packed as i32, ..scheduler.card }),
        step_delay(steps, left),
        now,
    );
}

/// The card after it went back to the first step without jitter.
proof fn lemma_first_step(scheduler: Scheduler, delays: Seq<u32>, now: int)
    requires
        scheduler.wf(),
        i64::MIN <= now <= i64::MAX,
    ensures
        ({
            let delay = step_delay(delays, scheduler.counted_steps().len() as int);
            let place = learn_placement(
                now,
                delay,
                0,
                scheduler.day_cut_off as int,
                scheduler.day_today as int,
            );
            &&& scheduler.first_step(delays, now, 0) matches Some(after)
            &&& after.card_queue == place.0
            &&& after.due == place.1
            &&& after.card_queue != CardQueue::Review
        }),
{
    let counted = scheduler.counted_steps();
    lemma_reachable_steps_bound(
        last_steps(counted, counted.len() as int),
        now,
        scheduler.day_cut_off as int,
    );
    let packed = scheduler.start_remaining(now);
    assert(packed % 1_000 == counted.len());
    assert(step_delay(delays, packed) == step_delay(delays, counted.len() as int));
    let restarted = Card {
        remaining_steps: packed as i32,
        interval: if scheduler.card.card_type == CardType::Relearn {
            scheduler.lapse_interval_of() as i32
        } else {
            scheduler.card.interval
        },
        ..scheduler.card
    };
    lemma_placed_without_jitter(scheduler.with_card(restarted), step_delay(delays, packed), now);
}

/// `days`, or one day if that is more.
spec fn at_least_one(days: int) -> int {
    if days < 1 {
        1
    } else {
        days
    }
}

/// Scaling a number of days that is not negative gives one that is not.
proof fn lemma_scaled_not_negative(numerator: int, denominator: int, multiplier: int)
    by (nonlinear_arith)
    requires
        numerator >= 0,
        denominator > 0,
        multiplier >= 0,
    ensures
        scaled(numerator, denominator, multiplier) >= 0,
{
}

} // verus!
