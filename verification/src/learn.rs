//! Answers on a card that is being learned: steps and graduation.

use crate::card::{Card, CardQueue, CardType};
use crate::fuzz::{in_fuzz_range, lemma_fuzz_range_valid};
use crate::random::uniform_random;
use crate::scheduler::{Chance, Choice, Draws, Scheduler};
use crate::steps::{
    jitter_limit, learn_placement, repeat_delay, step_delay, steps_before_cut_off,
    MAX_STEP_JITTER,
};
use vstd::prelude::*;

verus! {

impl Scheduler {
    /// The step sequence whose length a card counts when it starts over:
    /// the relearning steps for a card that is relearned, else the
    /// learning steps.
    pub open spec fn counted_steps(&self) -> Seq<u32> {
        if self.card.card_type == CardType::Relearn {
            self.config.relearn_steps@
        } else {
            self.config.learn_steps@
        }
    }

    /// The packed step count of a card that starts its steps at `now`.
    pub open spec fn start_remaining(&self, now: int) -> int {
        let steps = self.counted_steps();
        steps.len() + 1_000 * steps_before_cut_off(
            steps,
            steps.len() as int,
            now,
            self.day_cut_off as int,
        )
    }

    /// The card after it was told to wait `delay` seconds from `now`, or
    /// `None` where `jitter` is none that can be drawn for that delay.
    pub open spec fn placed(&self, delay: int, now: int, jitter: int) -> Option<Card> {
        if 0 <= jitter <= jitter_limit(delay) {
            let place = learn_placement(
                now,
                delay,
                jitter,
                self.day_cut_off as int,
                self.day_today as int,
            );
            Some(Card { card_queue: place.0, due: place.1 as i64, ..self.card })
        } else {
            None
        }
    }

    /// The card after it moved on to the next learning step.
    pub open spec fn next_step(&self, now: int, jitter: int) -> Option<Card> {
        let left = self.card.steps_left() - 1;
        let packed = steps_before_cut_off(
            self.config.learn_steps@,
            left,
            now,
            self.day_cut_off as int,
        ) * 1_000 + left;
        self.with_card(Card { remaining_steps: packed as i32, ..self.card }).placed(
            step_delay(self.config.learn_steps@, packed),
            now,
            jitter,
        )
    }

    /// The card after it repeated its current learning step.
    pub open spec fn repeated_step(&self, now: int, jitter: int) -> Option<Card> {
        self.placed(
            repeat_delay(self.config.learn_steps@, self.card.remaining_steps as int),
            now,
            jitter,
        )
    }

    /// The card after it went back to the first step, which waits as the
    /// steps in `delays` say. A card that is relearned pays for it with
    /// the interval of a lapse.
    pub open spec fn first_step(&self, delays: Seq<u32>, now: int, jitter: int) -> Option<Card> {
        let restarted = Card {
            remaining_steps: self.start_remaining(now) as i32,
            interval: if self.card.card_type == CardType::Relearn {
                self.lapse_interval_of() as i32
            } else {
                self.card.interval
            },
            ..self.card
        };
        self.with_card(restarted).placed(
            step_delay(delays, restarted.remaining_steps as int),
            now,
            jitter,
        )
    }

    /// The unfuzzed interval of a first graduation, in days.
    pub open spec fn graduating_days(&self, early: bool) -> int {
        if early {
            self.config.graduating_interval_easy as int
        } else {
            self.config.graduating_interval_good as int
        }
    }

    /// The card has been in review before.
    pub open spec fn seen_review(&self) -> bool {
        self.card.card_type == CardType::Review || self.card.card_type == CardType::Relearn
    }

    /// The card after graduation into review, or `None` where `draw` is no
    /// fuzzed value of the graduating interval that the card needs. A card
    /// that was in review before keeps its interval, plus a day if it
    /// graduates early, and needs no draw. Any other card takes the draw as
    /// its interval, and the initial ease if it has none.
    pub open spec fn graduated(&self, early: bool, draw: int) -> Option<Card> {
        if self.seen_review() {
            let interval = self.card.interval + if early { 1int } else { 0int };
            Some(
                Card {
                    interval: interval as i32,
                    due: (self.day_today + interval) as i64,
                    card_type: CardType::Review,
                    card_queue: CardQueue::Review,
                    ..self.card
                },
            )
        } else if in_fuzz_range(self.graduating_days(early), draw) {
            Some(
                Card {
                    interval: draw as i32,
                    due: (self.day_today + draw) as i64,
                    ease_factor: if self.card.ease_factor == 0 {
                        self.config.initial_ease
                    } else {
                        self.card.ease_factor
                    },
                    card_type: CardType::Review,
                    card_queue: CardQueue::Review,
                    ..self.card
                },
            )
        } else {
            None
        }
    }

    /// The card after an answer given while it is learned, or `None`
    /// where `chance` holds a draw that cannot come out. Easy graduates at
    /// once; good graduates from the last step and else moves a step on;
    /// hard repeats the step; again starts over.
    pub open spec fn learn_answered(&self, choice: Choice, now: int, chance: Chance) -> Option<
        Card,
    > {
        match choice {
            Choice::Easy => self.graduated(true, chance.graduation),
            Choice::Good => if self.card.steps_left() <= 1 {
                self.graduated(false, chance.graduation)
            } else {
                self.next_step(now, chance.jitter)
            },
            Choice::Hard => self.repeated_step(now, chance.jitter),
            Choice::Again => self.first_step(self.config.learn_steps@, now, chance.jitter),
        }
    }

    /// The packed step count of a card that starts its steps at `now`: the
    /// number of steps, plus 1000 times the number that fit into the day.
    pub fn start_remaining_steps(&self, now: i64) -> (packed: i32)
        requires
            self.config.wf(),
        ensures
            packed == self.start_remaining(now as int),
            packed % 1_000 == self.counted_steps().len(),
            1_000 <= packed <= 999_999,
    {
        let steps = match self.card.card_type {
            CardType::Relearn => self.config.relearn_steps.as_slice(),
            _ => self.config.learn_steps.as_slice(),
        };
        let total = steps.len();
        let fit = self.remaining_today(steps, total, now);
        total as i32 + fit * 1_000
    }

    /// Makes the card wait `delay` seconds from `now`, with `jitter`
    /// seconds on top if it is due again today.
    pub fn place_learn_card(&mut self, delay: i64, now: i64, jitter: i64)
        requires
            old(self).dated(),
            delay >= 0,
            jitter >= 0,
        ensures
            *final(self) == old(self).with_card(final(self).card),
            final(self).card == (Card {
                card_queue: learn_placement(
                    now as int,
                    delay as int,
                    jitter as int,
                    old(self).day_cut_off as int,
                    old(self).day_today as int,
                ).0,
                due: learn_placement(
                    now as int,
                    delay as int,
                    jitter as int,
                    old(self).day_cut_off as int,
                    old(self).day_today as int,
                ).1 as i64,
                ..old(self).card
            }),
            i64::MIN <= learn_placement(
                now as int,
                delay as int,
                jitter as int,
                old(self).day_cut_off as int,
                old(self).day_today as int,
            ).1 <= i64::MAX,
    {
        let cut_off: i128 = self.day_cut_off as i128;
        let due: i128 = now as i128 + delay as i128;
        if due < cut_off {
            let late: i128 = due + jitter as i128;
            let capped: i128 = if late < cut_off - 1 {
                late
            } else {
                cut_off - 1
            };
            self.card.due = capped as i64;
            self.card.card_queue = CardQueue::Learn;
        } else {
            let ahead: i128 = (due - cut_off) / 86_400 + 1;
            self.card.due = (self.day_today as i128 + ahead) as i64;
            self.card.card_queue = CardQueue::DayLearn;
        }
    }

    /// Makes the card wait `delay` seconds from `now`. If it is due again
    /// today it gets a jitter: the one in `given`, or else a drawn one.
    /// The result is the jitter that was used.
    pub(crate) fn reschedule_learn_card(
        &mut self,
        delay: i64,
        now: i64,
        given: Option<Draws>,
    ) -> (jitter: Ghost<int>)
        requires
            old(self).dated(),
            delay >= 0,
            given matches Some(draws) ==> old(self).placed(
                delay as int,
                now as int,
                draws.jitter as int,
            ).is_some(),
        ensures
            *final(self) == old(self).with_card(final(self).card),
            old(self).placed(delay as int, now as int, jitter@) == Some(final(self).card),
            given matches Some(draws) ==> jitter@ == draws.jitter,
    {
        let due: i128 = now as i128 + delay as i128;
        let drawn: i64 = if let Some(draws) = given {
            draws.jitter
        } else if due < self.day_cut_off as i128 {
            let quarter: i64 = delay / 4;
            let max_extra: i64 = if quarter < MAX_STEP_JITTER {
                quarter
            } else {
                MAX_STEP_JITTER
            };
            uniform_random(
                0,
                if max_extra > 1 {
                    max_extra
                } else {
                    1
                },
            )
        } else {
            0
        };
        self.place_learn_card(delay, now, drawn);
        Ghost(drawn as int)
    }

    /// Moves the card on to the next learning step.
    pub(crate) fn move_to_next_step(&mut self, now: i64, given: Option<Draws>) -> (jitter: Ghost<
        int,
    >)
        requires
            old(self).wf(),
            given matches Some(draws) ==> old(self).next_step(now as int, draws.jitter as int).is_some(),
            old(self).card.steps_left() >= 1,
        ensures
            *final(self) == old(self).with_card(final(self).card),
            old(self).next_step(now as int, jitter@) == Some(final(self).card),
            given matches Some(draws) ==> jitter@ == draws.jitter,
            final(self).card.wf(),
    {
        let left: i32 = self.card.remaining_steps % 1_000 - 1;
        let fit = self.remaining_today(self.config.learn_steps.as_slice(), left as usize, now);
        self.card.remaining_steps = fit * 1_000 + left;
        let delay = Self::delay_for_grade(
            self.config.learn_steps.as_slice(),
            self.card.remaining_steps,
        );
        self.reschedule_learn_card(delay, now, given)
    }

    /// Makes the card repeat its current learning step.
    pub(crate) fn repeat_step(&mut self, now: i64, given: Option<Draws>) -> (jitter: Ghost<
        int,
    >)
        requires
            old(self).wf(),
            given matches Some(draws) ==> old(self).repeated_step(now as int, draws.jitter as int).is_some(),
        ensures
            *final(self) == old(self).with_card(final(self).card),
            old(self).repeated_step(now as int, jitter@) == Some(final(self).card),
            given matches Some(draws) ==> jitter@ == draws.jitter,
            final(self).card.wf(),
    {
        let delay = Self::delay_for_repeating_grade(
            self.config.learn_steps.as_slice(),
            self.card.remaining_steps,
        );
        self.reschedule_learn_card(delay, now, given)
    }

    /// Sends the card back to its first step. The first step waits as the
    /// relearning steps say if `relearning` is set, else as the learning
    /// steps say.
    pub(crate) fn move_to_first_step(
        &mut self,
        relearning: bool,
        now: i64,
        given: Option<Draws>,
    ) -> (jitter: Ghost<int>)
        requires
            old(self).wf(),
            given matches Some(draws) ==> old(self).first_step(
                if relearning {
                    old(self).config.relearn_steps@
                } else {
                    old(self).config.learn_steps@
                },
                now as int,
                draws.jitter as int,
            ).is_some(),
        ensures
            *final(self) == old(self).with_card(final(self).card),
            old(self).first_step(
                if relearning {
                    old(self).config.relearn_steps@
                } else {
                    old(self).config.learn_steps@
                },
                now as int,
                jitter@,
            ) == Some(final(self).card),
            given matches Some(draws) ==> jitter@ == draws.jitter,
            final(self).card.wf(),
    {
        self.card.remaining_steps = self.start_remaining_steps(now);
        if self.card.card_type == CardType::Relearn {
            self.card.interval = self.lapse_interval();
        }
        let delay = if relearning {
            Self::delay_for_grade(self.config.relearn_steps.as_slice(), self.card.remaining_steps)
        } else {
            Self::delay_for_grade(self.config.learn_steps.as_slice(), self.card.remaining_steps)
        };
        self.reschedule_learn_card(delay, now, given)
    }

    /// The interval with which the card graduates, in days. A card that
    /// was in review before keeps its interval, plus a day if it graduates
    /// early; any other card gets the graduating interval of the profile,
    /// fuzzed if asked for.
    pub fn graduating_interval(&self, early: bool, fuzzy: bool) -> (days: i32)
        requires
            self.config.wf(),
            self.seen_review() && early ==> self.card.interval < i32::MAX,
        ensures
            self.seen_review() ==> days == self.card.interval + if early { 1int } else { 0int },
            !self.seen_review() && !fuzzy ==> days == self.graduating_days(early),
            !self.seen_review() && fuzzy ==> in_fuzz_range(
                self.graduating_days(early),
                days as int,
            ),
            !self.seen_review() ==> days >= if fuzzy { 1int } else { 0int },
    {
        match self.card.card_type {
            CardType::Review | CardType::Relearn => {
                let bonus: i32 = if early {
                    1
                } else {
                    0
                };
                self.card.interval + bonus
            },
            _ => {
                let ideal = if early {
                    self.config.graduating_interval_easy
                } else {
                    self.config.graduating_interval_good
                };
                if fuzzy {
                    Self::fuzz_interval(ideal)
                } else {
                    ideal
                }
            },
        }
    }

    /// Graduates a card that was in review before.
    pub(crate) fn reschedule_graduating_lapse(&mut self, early: bool)
        requires
            old(self).dated(),
            early ==> old(self).card.interval < i32::MAX,
        ensures
            *final(self) == old(self).with_card(
                Card {
                    interval: (old(self).card.interval + if early { 1int } else { 0int }) as i32,
                    due: (old(self).day_today + old(self).card.interval + if early {
                        1int
                    } else {
                        0int
                    }) as i64,
                    card_type: CardType::Review,
                    card_queue: CardQueue::Review,
                    ..old(self).card
                },
            ),
    {
        if early {
            self.card.interval = self.card.interval + 1;
        }
        self.card.due = self.day_today + self.card.interval as i64;
        self.card.card_type = CardType::Review;
        self.card.card_queue = CardQueue::Review;
    }

    /// Graduates a card for the first time.
    pub(crate) fn reschedule_new(&mut self, early: bool, given: Option<Draws>)
        requires
            old(self).wf(),
            !old(self).seen_review(),
            given matches Some(draws) ==> in_fuzz_range(
                old(self).graduating_days(early),
                draws.graduation as int,
            ),
        ensures
            given matches Some(draws) ==> final(self).card.interval == draws.graduation,
            *final(self) == old(self).with_card(final(self).card),
            old(self).graduated(early, final(self).card.interval as int) == Some(
                final(self).card,
            ),
            final(self).card.interval >= 1,
    {
        self.card.interval = match given {
            Some(draws) => draws.graduation,
            None => self.graduating_interval(early, true),
        };
        proof {
            lemma_fuzz_range_valid(self.graduating_days(early));
        }
        self.card.due = self.day_today + self.card.interval as i64;
        if self.card.ease_factor == 0 {
            self.card.ease_factor = self.config.initial_ease;
        }
        self.card.card_queue = CardQueue::Review;
        self.card.card_type = CardType::Review;
    }

    /// Graduates the card into review.
    pub(crate) fn reschedule_as_review(&mut self, early: bool, given: Option<Draws>)
        requires
            old(self).wf(),
            early && old(self).seen_review() ==> old(self).card.interval < i32::MAX,
            given matches Some(draws) ==> old(self).graduated(
                early,
                draws.graduation as int,
            ).is_some(),
        ensures
            given matches Some(draws) ==> old(self).graduated(early, draws.graduation as int)
                == Some(final(self).card),
            *final(self) == old(self).with_card(final(self).card),
            old(self).graduated(early, final(self).card.interval as int) == Some(
                final(self).card,
            ),
            final(self).card.wf(),
    {
        match self.card.card_type {
            CardType::Review | CardType::Relearn => self.reschedule_graduating_lapse(early),
            _ => self.reschedule_new(early, given),
        }
    }

    /// Answers a card that is being learned.
    pub(crate) fn answer_learn_card(
        &mut self,
        choice: Choice,
        now: i64,
        given: Option<Draws>,
    ) -> (chance: Ghost<Chance>)
        requires
            old(self).wf(),
            old(self).seen_review() ==> old(self).card.interval < i32::MAX,
            given matches Some(draws) ==> old(self).learn_answered(
                choice,
                now as int,
                draws.chance(),
            ).is_some(),
        ensures
            *final(self) == old(self).with_card(final(self).card),
            old(self).learn_answered(choice, now as int, chance@) == Some(final(self).card),
            given matches Some(draws) ==> chance@ == draws.chance(),
            final(self).card.wf(),
    {
        let jitter: Ghost<int> = match choice {
            Choice::Easy => {
                self.reschedule_as_review(true, given);
                Ghost(0)
            },
            Choice::Good => {
                if self.card.remaining_steps % 1_000 <= 1 {
                    self.reschedule_as_review(false, given);
                    Ghost(0)
                } else {
                    self.move_to_next_step(now, given)
                }
            },
            Choice::Hard => self.repeat_step(now, given),
            Choice::Again => self.move_to_first_step(false, now, given),
        };
        Ghost(
            match given {
                Some(draws) => draws.chance(),
                None => Self::chance_of(jitter@, self.card.interval as int),
            },
        )
    }

    /// The chance of an answer that drew at most a jitter and a graduating
    /// interval.
    pub open spec fn chance_of(jitter: int, graduation: int) -> Chance {
        Chance { jitter, graduation, hard: 0, good: 0, easy: 0 }
    }
}

} // verus!
