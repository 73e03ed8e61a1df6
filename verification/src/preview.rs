//! Previews: what an answer would lead to, without touching the card.

use crate::card::{Card, CardQueue, CardType};
use crate::scheduler::{Choice, Scheduler};
use crate::steps::{repeat_delay, step_delay};
use crate::timespan::{answer_button_time, duration_text};
use vstd::prelude::*;

verus! {

impl Scheduler {
    /// The card is answered as a card that is being learned.
    pub open spec fn learning(&self) -> bool {
        ||| self.card.card_queue == CardQueue::New
        ||| self.card.card_queue == CardQueue::Learn
        ||| self.card.card_queue == CardQueue::DayLearn
    }

    /// The scheduler as an answer finds it: a new card has entered learning
    /// and counts all the learning steps; any other card is as it is.
    pub open spec fn at_answer(&self) -> Scheduler {
        if self.card.card_queue == CardQueue::New {
            self.with_card(
                Card {
                    card_queue: CardQueue::Learn,
                    card_type: CardType::Learn,
                    remaining_steps: self.config.learn_steps@.len() as i32,
                    ..self.card
                },
            )
        } else {
            *self
        }
    }

    /// The interval with which the card would graduate, in days, unfuzzed.
    pub open spec fn graduation_preview(&self, early: bool) -> int {
        if self.seen_review() {
            self.card.interval + if early { 1int } else { 0int }
        } else {
            self.graduating_days(early)
        }
    }

    /// The wait in seconds that `choice` would lead to on a card that is
    /// being learned, before jitter and fuzz: for again the first step, for
    /// hard the current step repeated, for easy the graduating interval; for
    /// good the next step, or the graduating interval from the last step.
    /// A new card is previewed as it enters learning.
    pub open spec fn learn_preview(&self, choice: Choice) -> int {
        let steps = self.config.learn_steps@;
        let entered = self.at_answer();
        match choice {
            Choice::Again => step_delay(steps, entered.counted_steps().len() as int),
            Choice::Hard => repeat_delay(steps, entered.card.remaining_steps as int),
            Choice::Easy => entered.graduation_preview(true) * 86_400,
            Choice::Good => if entered.card.steps_left() <= 1 {
                entered.graduation_preview(false) * 86_400
            } else {
                step_delay(steps, entered.card.steps_left() - 1)
            },
        }
    }

    /// The wait in seconds that `choice` would lead to, without fuzz or
    /// jitter. A card in review, or one that is suspended or buried, waits
    /// whole days, except that a failed card waits for its first relearning
    /// step where there is one.
    pub open spec fn preview(&self, choice: Choice) -> int {
        if self.learning() {
            self.learn_preview(choice)
        } else if choice == Choice::Again {
            if self.config.relearn_steps@.len() > 0 {
                self.config.relearn_steps@[0] as int
            } else {
                self.lapse_interval_of() * 86_400
            }
        } else {
            self.review_days(choice, self.unfuzzed()) * 86_400
        }
    }

    /// The wait in seconds that `choice` would lead to on a card that is
    /// being learned.
    pub fn next_learn_interval(&self, choice: Choice) -> (seconds: i64)
        requires
            self.wf(),
            self.seen_review() ==> self.card.interval < i32::MAX,
        ensures
            seconds == self.learn_preview(choice),
            seconds >= 0,
    {
        let steps = self.config.learn_steps.as_slice();
        let total: i32 = steps.len() as i32;
        let new = self.card.card_queue == CardQueue::New;
        let remaining: i32 = if new {
            total
        } else {
            self.card.remaining_steps
        };
        let relearning = !new && self.card.card_type == CardType::Relearn;
        let seen = !new && (self.card.card_type == CardType::Review || relearning);
        match choice {
            Choice::Again => {
                let counted: i32 = if relearning {
                    self.config.relearn_steps.len() as i32
                } else {
                    total
                };
                Self::delay_for_grade(steps, counted)
            },
            Choice::Hard => Self::delay_for_repeating_grade(steps, remaining),
            Choice::Easy => {
                if seen {
                    (self.card.interval as i64 + 1) * 86_400
                } else {
                    self.config.graduating_interval_easy as i64 * 86_400
                }
            },
            Choice::Good => {
                let left: i32 = remaining % 1_000;
                if left <= 1 {
                    if seen {
                        self.card.interval as i64 * 86_400
                    } else {
                        self.config.graduating_interval_good as i64 * 86_400
                    }
                } else {
                    Self::delay_for_grade(steps, left - 1)
                }
            },
        }
    }

    /// Whether the card can be previewed.
    pub fn can_preview(&self) -> (ok: bool)
        ensures
            ok == (self.wf() && (self.learning() && self.seen_review() ==> self.card.interval
                < i32::MAX) && (!self.learning() ==> self.lateness_fits())),
    {
        let learning = match self.card.card_queue {
            CardQueue::New | CardQueue::Learn | CardQueue::DayLearn => true,
            _ => false,
        };
        let seen = self.card.card_type == CardType::Review || self.card.card_type
            == CardType::Relearn;
        self.is_wf() && (!(learning && seen) || self.card.interval < i32::MAX) && (learning
            || self.is_lateness_fitting())
    }

    /// The wait in seconds that answering with `choice` would lead to. The
    /// card is not changed, and neither clock nor chance is asked.
    pub fn next_interval(&self, choice: Choice) -> (seconds: i64)
        requires
            self.wf(),
            self.learning() && self.seen_review() ==> self.card.interval < i32::MAX,
            !self.learning() ==> self.lateness_fits(),
        ensures
            seconds == self.preview(choice),
            seconds >= 0,
    {
        match self.card.card_queue {
            CardQueue::New | CardQueue::Learn | CardQueue::DayLearn => self.next_learn_interval(
                choice,
            ),
            _ => {
                if choice == Choice::Again {
                    if self.config.relearn_steps.len() > 0 {
                        self.config.relearn_steps[0] as i64
                    } else {
                        self.lapse_interval() as i64 * 86_400
                    }
                } else {
                    self.next_review_interval(choice, false) as i64 * 86_400
                }
            },
        }
    }

    /// The wait that answering with `choice` would lead to, in words.
    pub fn next_interval_string(&self, choice: Choice) -> (text: String)
        requires
            self.wf(),
            self.learning() && self.seen_review() ==> self.card.interval < i32::MAX,
            !self.learning() ==> self.lateness_fits(),
        ensures
            text@ == duration_text(self.preview(choice)),
    {
        let seconds = self.next_interval(choice);
        answer_button_time(seconds as u64)
    }
}

} // verus!
