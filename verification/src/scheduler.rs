//! The scheduler: the state machine that answers move a card through.

use crate::card::{Card, CardQueue, CardType};
use crate::config::{Config, MINIMUM_EASE_FACTOR};
use crate::fuzz::in_fuzz_range;
use crate::interval::is_leech;
use crate::random::uniform_sample;
use crate::review::ease_after_answer;
use crate::timestamp::Timestamp;
use vstd::prelude::*;

verus! {

/// A `due` above this is read as a timestamp, any other as a day number.
pub const LARGEST_DAY_NUMBER: i64 = 1_000_000_000;

/// The quality of a recall, as the user reports it.
#[derive(Clone, Copy, Debug, PartialEq, Eq, Structural)]
pub enum Choice {
    Again,
    Hard,
    Good,
    Easy,
}

/// Why an operation of the scheduler was not carried out.
#[derive(Clone, Copy, Debug, PartialEq, Eq, Structural)]
pub enum SchedulerError {
    /// The lower bound of a range lies above its upper bound.
    InvalidRange,
}

/// One card and one profile, bound to a study day.
pub struct Scheduler {
    pub card: Card,
    pub config: Config,
    /// The moment at which the current study day ends, in seconds.
    pub day_cut_off: i64,
    /// The number of the current study day.
    pub day_today: i64,
}

/// What chance adds to one answer. An answer uses at most the draws of one
/// kind: the jitter of a learning step, the fuzzed interval of a first
/// graduation, or the fuzzed intervals of a review.
pub struct Chance {
    /// Seconds added to the due time of a learning step.
    pub jitter: int,
    /// The fuzzed graduating interval.
    pub graduation: int,
    /// The fuzzed interval of a hard review.
    pub hard: int,
    /// The fuzzed interval of a good review.
    pub good: int,
    /// The fuzzed interval of an easy review.
    pub easy: int,
}

/// The draws of one answer, made by the caller instead of the random
/// generator. An answer reads at most the draws of one kind and leaves the
/// others alone.
#[derive(Clone, Copy, Debug, PartialEq, Eq)]
pub struct Draws {
    /// Seconds added to the due time of a learning step.
    pub jitter: i64,
    /// The fuzzed graduating interval.
    pub graduation: i32,
    /// The fuzzed interval of a hard review.
    pub hard: i128,
    /// The fuzzed interval of a good review.
    pub good: i128,
    /// The fuzzed interval of an easy review.
    pub easy: i128,
}

impl Draws {
    /// These draws as the chance of an answer.
    pub open spec fn chance(&self) -> Chance {
        Chance {
            jitter: self.jitter as int,
            graduation: self.graduation as int,
            hard: self.hard as int,
            good: self.good as int,
            easy: self.easy as int,
        }
    }
}

/// The day number of the study day that ends at `cut_off`.
pub open spec fn day_number(cut_off: int) -> int {
    if cut_off >= 0 {
        cut_off / 86_400
    } else {
        -((-cut_off) / 86_400)
    }
}

impl Scheduler {
    /// The day number belongs to the cutoff.
    pub open spec fn dated(&self) -> bool {
        self.day_today == day_number(self.day_cut_off as int)
    }

    /// Card, profile and day fit together.
    pub open spec fn wf(&self) -> bool {
        &&& self.card.wf()
        &&& self.config.wf()
        &&& self.dated()
    }

    /// This scheduler with another state of its card.
    pub open spec fn with_card(self, card: Card) -> Scheduler {
        Scheduler { card, ..self }
    }

    /// The queue that a card of this type and due value belongs to when no
    /// overlay hides it.
    pub open spec fn home_queue(card: Card) -> CardQueue {
        match card.card_type {
            CardType::Learn | CardType::Relearn => if card.due > LARGEST_DAY_NUMBER {
                CardQueue::Learn
            } else {
                CardQueue::DayLearn
            },
            CardType::New => CardQueue::New,
            CardType::Review => CardQueue::Review,
        }
    }

    /// Binds a card and a profile to the study day that ends at `day_cut_off`.
    pub fn new(card: Card, config: Config, day_cut_off: i64) -> (scheduler: Scheduler)
        ensures
            scheduler.card == card,
            scheduler.config == config,
            scheduler.day_cut_off == day_cut_off,
            scheduler.dated(),
    {
        Scheduler { card, config, day_cut_off, day_today: day_cut_off / 86_400 }
    }

    /// Hides the card until it is unburied.
    pub fn bury_card(&mut self)
        ensures
            *final(self) == old(self).with_card(
                Card { card_queue: CardQueue::Buried, ..old(self).card },
            ),
    {
        self.card.card_queue = CardQueue::Buried;
    }

    /// Puts a buried card back into the queue of new cards.
    pub fn unbury_card(&mut self)
        ensures
            *final(self) == old(self).with_card(
                Card { card_queue: CardQueue::New, ..old(self).card },
            ),
    {
        self.card.card_queue = CardQueue::New;
    }

    /// Takes the card out of study until it is unsuspended.
    pub fn suspend_card(&mut self)
        ensures
            *final(self) == old(self).with_card(
                Card { card_queue: CardQueue::Suspended, ..old(self).card },
            ),
    {
        self.card.card_queue = CardQueue::Suspended;
    }

    /// Puts the card back into the queue that its type and due value call for.
    pub fn unsuspend_card(&mut self)
        ensures
            *final(self) == old(self).with_card(
                Card { card_queue: Self::home_queue(old(self).card), ..old(self).card },
            ),
    {
        self.card.card_queue = match self.card.card_type {
            CardType::Learn | CardType::Relearn => {
                if self.card.due > LARGEST_DAY_NUMBER {
                    CardQueue::Learn
                } else {
                    CardQueue::DayLearn
                }
            },
            CardType::New => CardQueue::New,
            CardType::Review => CardQueue::Review,
        }
    }

    /// Resets the card to the new state at `position`.
    pub fn schedule_card_as_new(&mut self, position: i64)
        ensures
            *final(self) == old(self).with_card(old(self).card.as_new(position)),
    {
        self.card.schedule_as_new(position);
    }
    /// The numbers that the answer will raise can still grow: the count of
    /// answers; for a card in review the lapses and the ease factor, and the
    /// review is not later than an `i32` number of days; for a card that
    /// was in review and is learned again, the interval.
    pub open spec fn within_limits(&self) -> bool {
        &&& self.card.reps < i32::MAX
        &&& self.card.card_queue == CardQueue::Review ==> {
            &&& self.card.lapses < i32::MAX
            &&& self.card.ease_factor <= i32::MAX - 150
            &&& self.lateness_fits()
        }
        &&& (self.card.card_queue == CardQueue::Learn || self.card.card_queue
            == CardQueue::DayLearn) && self.seen_review() ==> self.card.interval < i32::MAX
    }

    /// Whether card, profile and day fit together.
    pub fn is_wf(&self) -> (ok: bool)
        ensures
            ok == self.wf(),
    {
        self.card.is_wf() && self.config.is_wf() && self.day_today == self.day_cut_off / 86_400
    }

    /// Whether the review is not later than an `i32` number of days.
    pub fn is_lateness_fitting(&self) -> (ok: bool)
        ensures
            ok == self.lateness_fits(),
    {
        self.day_today as i128 - self.card.due as i128 <= 0x7FFF_FFFF
    }

    /// Whether the card can be answered: the scheduler is well formed and
    /// within its limits.
    pub fn can_answer(&self) -> (ok: bool)
        ensures
            ok == (self.wf() && self.within_limits()),
    {
        let seen = self.card.card_type == CardType::Review || self.card.card_type
            == CardType::Relearn;
        let in_review = self.card.card_queue == CardQueue::Review;
        let in_steps = self.card.card_queue == CardQueue::Learn || self.card.card_queue
            == CardQueue::DayLearn;
        self.is_wf() && self.card.reps < i32::MAX && (!in_review || (self.card.lapses < i32::MAX
            && self.card.ease_factor <= i32::MAX - 150 && self.is_lateness_fitting())) && (!(
        in_steps && seen) || self.card.interval < i32::MAX)
    }

    /// The card with the answer counted and, if it was new, at the start
    /// of its learning steps.
    pub open spec fn entered(&self, now: int) -> Card {
        let counted = Card { reps: (self.card.reps + 1) as i32, ..self.card };
        if self.card.card_queue == CardQueue::New {
            let learning = Card {
                card_queue: CardQueue::Learn,
                card_type: CardType::Learn,
                ..counted
            };
            Card {
                remaining_steps: self.with_card(learning).start_remaining(now) as i32,
                ..learning
            }
        } else {
            counted
        }
    }

    /// The card after the answer `choice` given at `now`, or `None` where
    /// `chance` holds a draw that cannot come out. The answer is counted; a
    /// new card starts learning; then the card is answered as its queue
    /// says. A card that is suspended or buried only has the answer counted.
    pub open spec fn answered(&self, choice: Choice, now: int, chance: Chance) -> Option<Card> {
        let entered = self.entered(now);
        match entered.card_queue {
            CardQueue::Learn | CardQueue::DayLearn => self.with_card(entered).learn_answered(
                choice,
                now,
                chance,
            ),
            CardQueue::Review => self.with_card(entered).review_answered(choice, now, chance),
            _ => Some(entered),
        }
    }

    /// What every answer leaves on the card `after`, whatever the clock
    /// and the draws were. The answer is counted. On a card in review the
    /// ease factor moves by the step of the answer and stays at the floor or
    /// above; a failed review is counted as a lapse and suspends the card
    /// that it makes a leech. An easy answer on a card in its first learning
    /// sends it to review, with an interval from the fuzz range of the easy
    /// graduating interval, due after that interval.
    pub open spec fn answer_marks(&self, choice: Choice, after: Card) -> bool {
        &&& after.reps == self.card.reps + 1
        &&& self.card.card_queue == CardQueue::Review ==> {
            &&& after.ease_factor == ease_after_answer(self.card.ease_factor as int, choice)
            &&& after.ease_factor >= MINIMUM_EASE_FACTOR
        }
        &&& self.card.card_queue == CardQueue::Review && choice == Choice::Again ==> {
            &&& after.lapses == self.card.lapses + 1
            &&& is_leech(after.lapses as int, self.config.leech_threshold as int)
                ==> after.card_queue == CardQueue::Suspended
        }
        &&& self.first_learning() && choice == Choice::Easy ==> {
            &&& in_fuzz_range(self.config.graduating_interval_easy as int, after.interval as int)
            &&& after.card_type == CardType::Review
            &&& after.card_queue == CardQueue::Review
            &&& after.due == self.day_today + after.interval
        }
    }

    /// The card is answered as a card that is learned for the first time.
    pub open spec fn first_learning(&self) -> bool {
        ||| self.card.card_queue == CardQueue::New
        ||| (self.card.card_queue == CardQueue::Learn || self.card.card_queue
            == CardQueue::DayLearn) && !self.seen_review()
    }

    /// Records the answer `choice`, given at `now`, with the draws in
    /// `given` if there are any, else with draws of its own. The result is
    /// the chance that the answer met.
    fn answer_from(&mut self, choice: Choice, now: i64, given: Option<Draws>) -> (chance: Ghost<
        Chance,
    >)
        requires
            old(self).wf(),
            old(self).within_limits(),
            given matches Some(draws) ==> old(self).answered(
                choice,
                now as int,
                draws.chance(),
            ).is_some(),
        ensures
            *final(self) == old(self).with_card(final(self).card),
            old(self).answered(choice, now as int, chance@) == Some(final(self).card),
            given matches Some(draws) ==> chance@ == draws.chance(),
            final(self).wf(),
            old(self).answer_marks(choice, final(self).card),
    {
        self.card.reps = self.card.reps + 1;
        if self.card.card_queue == CardQueue::New {
            self.card.card_queue = CardQueue::Learn;
            self.card.card_type = CardType::Learn;
            self.card.remaining_steps = self.start_remaining_steps(now);
        }
        match self.card.card_queue {
            CardQueue::Learn | CardQueue::DayLearn => self.answer_learn_card(choice, now, given),
            CardQueue::Review => self.answer_review_card(choice, now, given),
            _ => Ghost(
                match given {
                    Some(draws) => draws.chance(),
                    None => Self::chance_of(0, 0),
                },
            ),
        }
    }

    /// Records the answer `choice`, given at `now`, with the draws that the
    /// caller made: the card becomes exactly what `answered` says for them.
    /// The draws that the answer reads have to be possible ones.
    pub fn answer_with(&mut self, choice: Choice, now: i64, draws: Draws)
        requires
            old(self).wf(),
            old(self).within_limits(),
            old(self).answered(choice, now as int, draws.chance()).is_some(),
        ensures
            *final(self) == old(self).with_card(final(self).card),
            old(self).answered(choice, now as int, draws.chance()) == Some(final(self).card),
            final(self).wf(),
            old(self).answer_marks(choice, final(self).card),
    {
        let chance = self.answer_from(choice, now, Some(draws));
    }

    /// Records the answer `choice`, given at `now`.
    ///
    /// The card becomes what `answered` says for some possible draws, and
    /// bears the marks of every answer.
    pub fn answer_at(&mut self, choice: Choice, now: i64)
        requires
            old(self).wf(),
            old(self).within_limits(),
        ensures
            *final(self) == old(self).with_card(final(self).card),
            exists|chance: Chance| #[trigger]
                old(self).answered(choice, now as int, chance) == Some(final(self).card),
            final(self).wf(),
            old(self).answer_marks(choice, final(self).card),
    {
        let chance = self.answer_from(choice, now, None);
    }

    /// Records the answer `choice`, given now by the system clock: the
    /// card becomes what `answered` says for some time and some possible
    /// draws.
    pub fn answer(&mut self, choice: Choice)
        requires
            old(self).wf(),
            old(self).within_limits(),
        ensures
            *final(self) == old(self).with_card(final(self).card),
            exists|now: i64, chance: Chance| #[trigger]
                old(self).answered(choice, now as int, chance) == Some(final(self).card),
            final(self).wf(),
            old(self).answer_marks(choice, final(self).card),
    {
        let now = Timestamp::now();
        self.answer_at(choice, now);
    }

    /// Records the answer `choice`, given now by the system clock; another
    /// name of `answer`.
    pub fn answer_card(&mut self, choice: Choice)
        requires
            old(self).wf(),
            old(self).within_limits(),
        ensures
            *final(self) == old(self).with_card(final(self).card),
            exists|now: i64, chance: Chance| #[trigger]
                old(self).answered(choice, now as int, chance) == Some(final(self).card),
            final(self).wf(),
            old(self).answer_marks(choice, final(self).card),
    {
        self.answer(choice);
    }

    /// Graduates the card straight to review, with an interval drawn
    /// uniformly from `min_days..=max_days`. A range that is upside down is
    /// refused and the card left as it is.
    pub fn schedule_card_as_review(&mut self, min_days: i32, max_days: i32) -> (done: Result<
        (),
        SchedulerError,
    >)
        requires
            old(self).dated(),
        ensures
            min_days > max_days ==> done == Err::<(), SchedulerError>(SchedulerError::InvalidRange)
                && *final(self) == *old(self),
            min_days <= max_days ==> done == Ok::<(), SchedulerError>(()) && exists|days: i32|
                min_days <= days <= max_days && *final(self) == old(self).with_card(
                    #[trigger] old(self).card.as_review(days, old(self).day_today),
                ),
    {
        if min_days > max_days {
            return Err(SchedulerError::InvalidRange);
        }
        let days = uniform_sample(min_days, max_days);
        self.card.schedule_as_review(days, self.day_today);
        Ok(())
    }
}

} // verus!
