//! Answers on a card in review: the new interval and the new ease factor.

use crate::card::{Card, CardQueue, CardType};
use crate::config::MINIMUM_EASE_FACTOR;
use crate::fuzz::{fuzz_draw, in_fuzz_range, lemma_fuzz_range_valid};
use crate::interval::{clamp_interval, constrained, days_overdue, is_leech, lapse_days, scale, scaled};
use crate::scheduler::{Chance, Choice, Draws, Scheduler};
use vstd::prelude::*;

verus! {

/// From this many days on, every value of a fuzz range lies above any
/// maximum interval, so the draw no longer matters.
const FUZZ_CAP: u128 = 0x1_0000_0000;

/// What a review adds to the ease factor, in permille.
pub open spec fn ease_step(choice: Choice) -> int {
    match choice {
        Choice::Hard => -150,
        Choice::Easy => 150,
        _ => 0,
    }
}

/// The ease factor after a review that was not failed.
pub open spec fn ease_after_review(ease_factor: int, choice: Choice) -> int {
    if ease_factor + ease_step(choice) > MINIMUM_EASE_FACTOR {
        ease_factor + ease_step(choice)
    } else {
        MINIMUM_EASE_FACTOR as int
    }
}

/// The ease factor after a failed review.
pub open spec fn ease_after_lapse(ease_factor: int) -> int {
    if ease_factor - 200 > MINIMUM_EASE_FACTOR {
        ease_factor - 200
    } else {
        MINIMUM_EASE_FACTOR as int
    }
}

/// The ease factor after an answer on a card in review.
pub open spec fn ease_after_answer(ease_factor: int, choice: Choice) -> int {
    if choice == Choice::Again {
        ease_after_lapse(ease_factor)
    } else {
        ease_after_review(ease_factor, choice)
    }
}

impl Scheduler {
    /// The number of days by which the review is late.
    pub open spec fn lateness(&self) -> int {
        days_overdue(self.day_today as int, self.card.due as int)
    }

    /// The lateness is an `i32` number of days.
    pub open spec fn lateness_fits(&self) -> bool {
        self.day_today - self.card.due <= i32::MAX
    }

    /// The interval that a hard review has to exceed: the current one when
    /// the hard multiplier is above 1, else none.
    pub open spec fn hard_floor(&self) -> int {
        if self.config.hard_multiplier > 1_000 {
            self.card.interval as int
        } else {
            0
        }
    }

    /// The unfuzzed interval of a hard review: the interval times the hard
    /// multiplier.
    pub open spec fn hard_days(&self) -> int {
        scaled(
            self.card.interval * self.config.hard_multiplier,
            1_000,
            self.config.interval_multiplier as int,
        )
    }

    /// The unfuzzed interval of a good review: the interval and half the
    /// lateness, times the ease factor.
    pub open spec fn good_days(&self) -> int {
        scaled(
            (2 * self.card.interval + self.lateness()) * self.card.ease_factor,
            2_000,
            self.config.interval_multiplier as int,
        )
    }

    /// The unfuzzed interval of an easy review: the interval and the whole
    /// lateness, times the ease factor and the easy multiplier.
    pub open spec fn easy_days(&self) -> int {
        scaled(
            (self.card.interval + self.lateness()) * self.card.ease_factor
                * self.config.easy_multiplier,
            1_000_000,
            self.config.interval_multiplier as int,
        )
    }

    /// `value` may stand for `ideal`: any value of its fuzz range when the
    /// review is fuzzed, only `ideal` itself when it is not.
    pub open spec fn stands_for(fuzzy: bool, ideal: int, value: int) -> bool {
        if fuzzy {
            in_fuzz_range(ideal, value)
        } else {
            value == ideal
        }
    }

    /// The draws that the review interval of `choice` takes from `chance`
    /// are possible ones. A hard review draws once, a good one twice, an
    /// easy one three times.
    pub open spec fn review_admits(&self, choice: Choice, fuzzy: bool, chance: Chance) -> bool {
        &&& Self::stands_for(fuzzy, self.hard_days(), chance.hard)
        &&& choice != Choice::Hard ==> Self::stands_for(fuzzy, self.good_days(), chance.good)
        &&& choice != Choice::Hard && choice != Choice::Good ==> Self::stands_for(
            fuzzy,
            self.easy_days(),
            chance.easy,
        )
    }

    /// The interval after a review answered with `choice`, given the draws.
    /// Each answer has to exceed the one below it: good exceeds hard, easy
    /// exceeds good.
    pub open spec fn review_days(&self, choice: Choice, chance: Chance) -> int {
        let maximum = self.config.maximum_review_interval as int;
        let hard = constrained(chance.hard, self.hard_floor(), maximum);
        let good = constrained(chance.good, hard, maximum);
        let easy = constrained(chance.easy, good, maximum);
        match choice {
            Choice::Hard => hard,
            Choice::Good => good,
            _ => easy,
        }
    }

    /// The draws of a review that is not fuzzed.
    pub open spec fn unfuzzed(&self) -> Chance {
        Chance {
            jitter: 0,
            graduation: 0,
            hard: self.hard_days(),
            good: self.good_days(),
            easy: self.easy_days(),
        }
    }

    /// The card after a review answered with `choice`, or `None` where
    /// `chance` holds a draw that cannot come out.
    pub open spec fn reviewed(&self, choice: Choice, chance: Chance) -> Option<Card> {
        if self.review_admits(choice, true, chance) {
            Some(
                Card {
                    interval: self.review_days(choice, chance) as i32,
                    ease_factor: ease_after_review(self.card.ease_factor as int, choice) as i32,
                    due: (self.day_today + self.review_days(choice, chance)) as i64,
                    ..self.card
                },
            )
        } else {
            None
        }
    }

    /// The interval after a lapse of this card.
    pub open spec fn lapse_interval_of(&self) -> int {
        lapse_days(
            self.card.interval as int,
            self.config.lapse_multiplier as int,
            self.config.minimum_review_interval as int,
        )
    }

    /// The card after a failed review, or `None` where `chance` holds a
    /// draw that cannot come out. The lapse is counted and the ease factor
    /// falls. A leech is suspended. A card that is not suspended and has
    /// relearning steps goes to the first of them; any other card stays in
    /// review with the interval of a lapse.
    pub open spec fn lapsed(&self, now: int, chance: Chance) -> Option<Card> {
        let leech = is_leech(self.card.lapses + 1, self.config.leech_threshold as int);
        let failed = Card {
            lapses: (self.card.lapses + 1) as i32,
            ease_factor: ease_after_lapse(self.card.ease_factor as int) as i32,
            card_queue: if leech {
                CardQueue::Suspended
            } else {
                self.card.card_queue
            },
            ..self.card
        };
        let suspended = failed.card_queue == CardQueue::Suspended;
        if self.config.relearn_steps@.len() > 0 && !suspended {
            self.with_card(Card { card_type: CardType::Relearn, ..failed }).first_step(
                self.config.relearn_steps@,
                now,
                chance.jitter,
            )
        } else {
            match self.with_card(
                Card { interval: self.lapse_interval_of() as i32, ..failed },
            ).graduated(false, chance.graduation) {
                Some(card) => Some(
                    if suspended {
                        Card { card_queue: CardQueue::Suspended, ..card }
                    } else {
                        card
                    },
                ),
                None => None,
            }
        }
    }

    /// The card after an answer given while it is in review.
    pub open spec fn review_answered(&self, choice: Choice, now: int, chance: Chance) -> Option<
        Card,
    > {
        if choice == Choice::Again {
            self.lapsed(now, chance)
        } else {
            self.reviewed(choice, chance)
        }
    }

    /// The unclamped interval of a review that comes before its due day.
    /// The days from the epoch to the end of the current interval are
    /// scaled by the hard multiplier for a hard answer and by the ease
    /// factor for any other, and count as one day at least. A hard answer
    /// keeps at least the interval times half the hard multiplier, in whole
    /// units; any other keeps at least the interval. An answer that is
    /// neither hard nor good earns half of what the easy multiplier adds.
    pub open spec fn early_days(&self, choice: Choice) -> int {
        let elapsed = self.day_today + self.card.interval;
        let factor = if choice == Choice::Hard {
            self.config.hard_multiplier as int
        } else {
            self.card.ease_factor as int
        };
        let least = if choice == Choice::Hard {
            self.config.hard_multiplier as int / 2_000
        } else {
            1
        };
        let bonus = if choice == Choice::Hard || choice == Choice::Good {
            2_000
        } else {
            self.config.easy_multiplier + 1_000
        };
        let grown = if elapsed * factor > 1_000 {
            elapsed * factor
        } else {
            1_000
        };
        let kept = self.card.interval * least * 1_000;
        let raised = if kept > grown {
            kept
        } else {
            grown
        };
        scaled(raised * bonus, 2_000_000, self.config.interval_multiplier as int)
    }

    /// The number of whole days by which the card is overdue.
    pub fn days_late(&self) -> (late: i32)
        requires
            self.lateness_fits(),
        ensures
            late == self.lateness(),
    {
        let behind: i128 = self.day_today as i128 - self.card.due as i128;
        if behind > 0 {
            behind as i32
        } else {
            0
        }
    }

    /// Scales `numerator / denominator` days by the interval multiplier and
    /// brings the result within bounds, fuzzing it first if asked to. The
    /// second result is the value that went into the clamp.
    fn constrain_interval(
        &self,
        numerator: u128,
        denominator: u32,
        previous: i32,
        fuzzy: bool,
        given: Option<i128>,
    ) -> (out: (i32, Ghost<int>))
        requires
            numerator < 0x1_0000_0000_0000_0000_0000_0000,
            0 < denominator <= 1_000_000,
            given matches Some(value) ==> Self::stands_for(
                fuzzy,
                scaled(
                    numerator as int,
                    denominator as int,
                    self.config.interval_multiplier as int,
                ),
                value as int,
            ),
        ensures
            given matches Some(value) ==> out.1@ == value,
            Self::stands_for(
                fuzzy,
                scaled(
                    numerator as int,
                    denominator as int,
                    self.config.interval_multiplier as int,
                ),
                out.1@,
            ),
            out.0 == constrained(
                out.1@,
                previous as int,
                self.config.maximum_review_interval as int,
            ),
    {
        let ideal = scale(numerator, denominator, self.config.interval_multiplier);
        let capped: i64 = if ideal > FUZZ_CAP {
            FUZZ_CAP as i64
        } else {
            ideal as i64
        };
        let value: i64 = if let Some(taken) = given {
            if taken > FUZZ_CAP as i128 {
                FUZZ_CAP as i64
            } else if taken < 0 {
                0
            } else {
                taken as i64
            }
        } else if fuzzy {
            fuzz_draw(capped)
        } else {
            capped
        };
        let days = clamp_interval(value, previous, self.config.maximum_review_interval);
        proof {
            if ideal > FUZZ_CAP {
                lemma_fuzz_range_valid(ideal as int);
            }
        }
        (
            days,
            Ghost(
                match given {
                    Some(taken) => taken as int,
                    None => if ideal > FUZZ_CAP {
                        ideal as int
                    } else {
                        value as int
                    },
                },
            ),
        )
    }

    /// The review interval for `choice`, with the draws that led to it.
    pub(crate) fn draw_review_interval(
        &self,
        choice: Choice,
        fuzzy: bool,
        given: Option<Draws>,
    ) -> (out: (i32, Ghost<Chance>))
        requires
            self.card.wf(),
            self.lateness_fits(),
            given matches Some(draws) ==> self.review_admits(choice, fuzzy, draws.chance()),
        ensures
            given matches Some(draws) ==> out.1@ == draws.chance(),
            self.review_admits(choice, fuzzy, out.1@),
            out.0 == self.review_days(choice, out.1@),
    {
        let interval: u128 = self.card.interval as u128;
        let late: u128 = self.days_late() as u128;
        let ease: u128 = self.card.ease_factor as u128;
        let hard_multiplier: u128 = self.config.hard_multiplier as u128;
        let easy_multiplier: u128 = self.config.easy_multiplier as u128;
        let hard_min: i32 = if self.config.hard_multiplier > 1_000 {
            self.card.interval
        } else {
            0
        };
        assert(interval * hard_multiplier < 0x8000_0000 * 0x1_0000_0000) by (nonlinear_arith)
            requires
                interval < 0x8000_0000,
                hard_multiplier < 0x1_0000_0000,
        ;
        let (hard_days, Ghost(hard)) = self.constrain_interval(
            interval * hard_multiplier,
            1_000,
            hard_min,
            fuzzy,
            match given {
                Some(draws) => Some(draws.hard),
                None => None,
            },
        );
        if choice == Choice::Hard {
            return (
                hard_days,
                Ghost(
                    match given {
                        Some(draws) => draws.chance(),
                        None => Chance { jitter: 0, graduation: 0, hard, good: 0, easy: 0 },
                    },
                ),
            );
        }
        let span: u128 = 2 * interval + late;
        assert(span * ease < 0x2_0000_0000 * 0x8000_0000) by (nonlinear_arith)
            requires
                span < 0x2_0000_0000,
                ease < 0x8000_0000,
        ;
        let (good_days, Ghost(good)) = self.constrain_interval(
            span * ease,
            2_000,
            hard_days,
            fuzzy,
            match given {
                Some(draws) => Some(draws.good),
                None => None,
            },
        );
        if choice == Choice::Good {
            return (
                good_days,
                Ghost(
                    match given {
                        Some(draws) => draws.chance(),
                        None => Chance { jitter: 0, graduation: 0, hard, good, easy: 0 },
                    },
                ),
            );
        }
        let whole: u128 = interval + late;
        assert(whole * ease < 0x1_0000_0000 * 0x8000_0000) by (nonlinear_arith)
            requires
                whole < 0x1_0000_0000,
                ease < 0x8000_0000,
        ;
        let eased: u128 = whole * ease;
        assert(eased * easy_multiplier < 0x1_0000_0000 * 0x8000_0000 * 0x1_0000_0000)
            by (nonlinear_arith)
            requires
                eased < 0x1_0000_0000 * 0x8000_0000,
                easy_multiplier < 0x1_0000_0000,
        ;
        let (easy_days, Ghost(easy)) = self.constrain_interval(
            eased * easy_multiplier,
            1_000_000,
            good_days,
            fuzzy,
            match given {
                Some(draws) => Some(draws.easy),
                None => None,
            },
        );
        (
            easy_days,
            Ghost(
                match given {
                    Some(draws) => draws.chance(),
                    None => Chance { jitter: 0, graduation: 0, hard, good, easy },
                },
            ),
        )
    }

    /// The interval that a review answered with `choice` leads to, in days.
    /// Without fuzz it is the interval of the unfuzzed draws; with fuzz it
    /// is the interval of some possible draws.
    pub fn next_review_interval(&self, choice: Choice, fuzzy: bool) -> (days: i32)
        requires
            self.card.wf(),
            self.lateness_fits(),
        ensures
            !fuzzy ==> days == self.review_days(choice, self.unfuzzed()),
            fuzzy ==> exists|chance: Chance| #[trigger]
                self.review_admits(choice, true, chance) && days == self.review_days(
                    choice,
                    chance,
                ),
            self.config.maximum_review_interval >= 1 ==> 1 <= days
                <= self.config.maximum_review_interval,
    {
        let (days, Ghost(chance)) = self.draw_review_interval(choice, fuzzy, None);
        days
    }

    /// The interval of a review that comes before its due day, in days. It
    /// is never fuzzed. No answer asks for it: a card is answered when it
    /// is due.
    pub fn early_review_interval(&self, choice: Choice) -> (days: i32)
        requires
            self.wf(),
            choice != Choice::Again,
        ensures
            days == constrained(
                self.early_days(choice),
                0,
                self.config.maximum_review_interval as int,
            ),
            1 <= days <= self.config.maximum_review_interval,
    {
        let interval: i128 = self.card.interval as i128;
        let elapsed: i128 = self.day_today as i128 + interval;
        let hard = choice == Choice::Hard;
        let factor: i128 = if hard {
            self.config.hard_multiplier as i128
        } else {
            self.card.ease_factor as i128
        };
        let least: i128 = if hard {
            (self.config.hard_multiplier / 2_000) as i128
        } else {
            1
        };
        let bonus: u128 = if hard || choice == Choice::Good {
            2_000
        } else {
            self.config.easy_multiplier as u128 + 1_000
        };
        assert(-0x1_0000_0000_0000 * 0x1_0000_0000 <= elapsed * factor <= 0x1_0000_0000_0000
            * 0x1_0000_0000) by (nonlinear_arith)
            requires
                -0x1_0000_0000_0000 <= elapsed <= 0x1_0000_0000_0000,
                0 <= factor <= 0x1_0000_0000,
        ;
        let scaled_up: i128 = elapsed * factor;
        let grown: i128 = if scaled_up > 1_000 {
            scaled_up
        } else {
            1_000
        };
        assert(0 <= interval * least <= 0x8000_0000 * 0x40_0000) by (nonlinear_arith)
            requires
                0 <= interval <= 0x8000_0000,
                0 <= least <= 0x40_0000,
        ;
        let kept: i128 = interval * least * 1_000;
        let raised: u128 = if kept > grown {
            kept as u128
        } else {
            grown as u128
        };
        assert(raised * bonus <= 0x1_0000_0000_0000_0000_0000 * 0x2_0000_0000)
            by (nonlinear_arith)
            requires
                raised <= 0x1_0000_0000_0000_0000_0000,
                bonus <= 0x2_0000_0000,
        ;
        let numerator: u128 = raised * bonus;
        let multiplier = self.config.interval_multiplier;
        if multiplier == 0 {
            assert(self.early_days(choice) == 0) by (nonlinear_arith)
                requires
                    self.early_days(choice) == (numerator as int) * (multiplier as int) / 2_000_000_000int,
                    multiplier == 0,
            ;
            clamp_interval(0, 0, self.config.maximum_review_interval)
        } else if numerator >= 0x1_0000_0000_0000_0000_0000_0000 {
            assert(self.early_days(choice) >= 0x8000_0000) by (nonlinear_arith)
                requires
                    self.early_days(choice) == (numerator as int) * (multiplier as int) / 2_000_000_000int,
                    multiplier >= 1,
                    numerator >= 0x1_0000_0000_0000_0000_0000_0000,
            ;
            self.config.maximum_review_interval
        } else {
            let ideal = scale(numerator, 2_000_000, multiplier);
            let capped: i64 = if ideal > FUZZ_CAP {
                FUZZ_CAP as i64
            } else {
                ideal as i64
            };
            clamp_interval(capped, 0, self.config.maximum_review_interval)
        }
    }

    /// The interval after a lapse, in days.
    pub fn lapse_interval(&self) -> (days: i32)
        requires
            self.card.interval >= 0,
        ensures
            days == self.lapse_interval_of(),
            days >= 1,
    {
        let interval: u64 = self.card.interval as u64;
        let multiplier: u64 = self.config.lapse_multiplier as u64;
        assert(interval * multiplier < 0x8000_0000 * 0x1_0000_0000) by (nonlinear_arith)
            requires
                interval < 0x8000_0000,
                multiplier < 0x1_0000_0000,
        ;
        let shrunk: u64 = interval * multiplier / 1_000;
        let capped: i32 = if shrunk > i32::MAX as u64 {
            i32::MAX
        } else {
            shrunk as i32
        };
        let minimum = self.config.minimum_review_interval;
        let raised: i32 = if capped > minimum {
            capped
        } else {
            minimum
        };
        if raised > 1 {
            raised
        } else {
            1
        }
    }

    /// Whether the card has lapsed often enough to count as a leech now.
    pub fn check_leech(&self) -> (leech: bool)
        ensures
            leech == is_leech(self.card.lapses as int, self.config.leech_threshold as int),
    {
        let threshold: i64 = self.config.leech_threshold as i64;
        let lapses: i64 = self.card.lapses as i64;
        if threshold == 0 {
            false
        } else {
            let half: i64 = threshold / 2;
            let period: i64 = if half > 1 {
                half
            } else {
                1
            };
            lapses >= threshold && (lapses - threshold) % period == 0
        }
    }
    /// Gives the card the interval and the ease factor that follow a review
    /// answered with `choice`.
    pub(crate) fn reschedule_review(&mut self, choice: Choice, given: Option<Draws>) -> (chance:
        Ghost<Chance>)
        requires
            old(self).wf(),
            old(self).lateness_fits(),
            old(self).card.ease_factor <= i32::MAX - 150,
            choice != Choice::Again,
            given matches Some(draws) ==> old(self).reviewed(choice, draws.chance()).is_some(),
        ensures
            given matches Some(draws) ==> chance@ == draws.chance(),
            *final(self) == old(self).with_card(final(self).card),
            old(self).reviewed(choice, chance@) == Some(final(self).card),
            final(self).card.wf(),
            final(self).card.ease_factor >= MINIMUM_EASE_FACTOR,
            final(self).card.interval >= 1,
    {
        let (days, chance) = self.draw_review_interval(choice, true, given);
        self.card.interval = days;
        let step: i32 = match choice {
            Choice::Hard => -150,
            Choice::Easy => 150,
            _ => 0,
        };
        let moved: i32 = self.card.ease_factor + step;
        self.card.ease_factor = if moved > MINIMUM_EASE_FACTOR {
            moved
        } else {
            MINIMUM_EASE_FACTOR
        };
        self.card.due = self.day_today + days as i64;
        chance
    }

    /// Records a failed review.
    pub(crate) fn reschedule_lapse(&mut self, now: i64, given: Option<Draws>) -> (chance: Ghost<
        Chance,
    >)
        requires
            old(self).wf(),
            old(self).card.lapses < i32::MAX,
            given matches Some(draws) ==> old(self).lapsed(now as int, draws.chance()).is_some(),
        ensures
            given matches Some(draws) ==> chance@ == draws.chance(),
            *final(self) == old(self).with_card(final(self).card),
            old(self).lapsed(now as int, chance@) == Some(final(self).card),
            final(self).card.wf(),
            final(self).card.ease_factor >= MINIMUM_EASE_FACTOR,
            final(self).card.lapses == old(self).card.lapses + 1,
            is_leech(final(self).card.lapses as int, old(self).config.leech_threshold as int)
                ==> final(self).card.card_queue == CardQueue::Suspended,
    {
        self.card.lapses = self.card.lapses + 1;
        let lowered: i32 = self.card.ease_factor - 200;
        self.card.ease_factor = if lowered > MINIMUM_EASE_FACTOR {
            lowered
        } else {
            MINIMUM_EASE_FACTOR
        };
        let leech = self.check_leech();
        if leech {
            self.card.card_queue = CardQueue::Suspended;
        }
        let suspended = self.card.card_queue == CardQueue::Suspended;
        if self.config.relearn_steps.len() > 0 && !suspended {
            self.card.card_type = CardType::Relearn;
            let jitter = self.move_to_first_step(true, now, given);
            Ghost(
                match given {
                    Some(draws) => draws.chance(),
                    None => Self::chance_of(jitter@, 0),
                },
            )
        } else {
            self.card.interval = self.lapse_interval();
            self.reschedule_as_review(false, given);
            if suspended {
                self.card.card_queue = CardQueue::Suspended;
            }
            Ghost(
                match given {
                    Some(draws) => draws.chance(),
                    None => Self::chance_of(0, self.card.interval as int),
                },
            )
        }
    }

    /// Answers a card that is in review.
    pub(crate) fn answer_review_card(
        &mut self,
        choice: Choice,
        now: i64,
        given: Option<Draws>,
    ) -> (chance: Ghost<Chance>)
        requires
            old(self).wf(),
            old(self).lateness_fits(),
            old(self).card.lapses < i32::MAX,
            old(self).card.ease_factor <= i32::MAX - 150,
            given matches Some(draws) ==> old(self).review_answered(
                choice,
                now as int,
                draws.chance(),
            ).is_some(),
        ensures
            given matches Some(draws) ==> chance@ == draws.chance(),
            *final(self) == old(self).with_card(final(self).card),
            old(self).review_answered(choice, now as int, chance@) == Some(final(self).card),
            final(self).card.wf(),
            final(self).card.ease_factor >= MINIMUM_EASE_FACTOR,
    {
        match choice {
            Choice::Again => self.reschedule_lapse(now, given),
            _ => self.reschedule_review(choice, given),
        }
    }
}

} // verus!
