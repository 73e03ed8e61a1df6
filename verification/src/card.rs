//! The card: the entity that is scheduled.

use vstd::prelude::*;

verus! {

/// Ease factor of a card that is rescheduled by hand, in permille (250%).
pub const INITIAL_EASE_FACTOR: i32 = 2_500;

/// The semantic stage of a card.
#[derive(Clone, Copy, Debug, PartialEq, Eq, Structural)]
pub enum CardType {
    New,
    Learn,
    Review,
    Relearn,
}

/// The scheduling bucket of a card. It decides how `due` is read.
#[derive(Clone, Copy, Debug, PartialEq, Eq, Structural)]
pub enum CardQueue {
    /// `due` is the position in which new cards are shown.
    New,
    /// `due` is a timestamp in seconds.
    Learn,
    /// `due` is a day number.
    Review,
    /// `due` is a day number.
    DayLearn,
    /// The card is not due while it is suspended.
    Suspended,
    /// The card is not due while it is buried.
    Buried,
}

/// One learning item and its memory-strength state.
#[derive(Clone, Copy, Debug, PartialEq, Eq, Structural)]
pub struct Card {
    pub card_type: CardType,
    pub card_queue: CardQueue,
    /// Position, timestamp or day number, depending on `card_queue`.
    pub due: i64,
    /// The last graduated or review interval in days; 0 before the first.
    pub interval: i32,
    /// Ease in permille; 0 until the card first graduates.
    pub ease_factor: i32,
    /// Number of answers ever given.
    pub reps: i32,
    /// Number of failed reviews.
    pub lapses: i32,
    /// Steps left, plus 1000 times the steps that fit before the day cutoff.
    pub remaining_steps: i32,
}

impl Card {
    /// A card that has never been studied, shown at position `due`.
    pub open spec fn fresh(due: i64) -> Card {
        Card {
            card_type: CardType::New,
            card_queue: CardQueue::New,
            due,
            interval: 0,
            ease_factor: 0,
            reps: 0,
            lapses: 0,
            remaining_steps: 0,
        }
    }

    /// The quantities that the interval arithmetic reads are not negative.
    pub open spec fn wf(&self) -> bool {
        &&& self.interval >= 0
        &&& self.ease_factor >= 0
        &&& self.remaining_steps >= 0
    }

    /// The number of learning steps that the card still has to pass.
    pub open spec fn steps_left(&self) -> int {
        self.remaining_steps as int % 1000
    }

    /// The number of those steps that fit before the day cutoff.
    pub open spec fn steps_today(&self) -> int {
        self.remaining_steps as int / 1000
    }

    /// This card put back among the new cards at `position`.
    pub open spec fn as_new(self, position: i64) -> Card {
        Card {
            card_type: CardType::New,
            card_queue: CardQueue::New,
            due: position,
            interval: 0,
            ease_factor: INITIAL_EASE_FACTOR,
            ..self
        }
    }

    /// This card graduated by hand on day `today`, to be seen again after
    /// `interval` days. The stored interval is at least one day; the due day
    /// is counted with `interval` as given.
    pub open spec fn as_review(self, interval: i32, today: i64) -> Card {
        Card {
            card_type: CardType::Review,
            card_queue: CardQueue::Review,
            due: (today + interval) as i64,
            interval: if interval < 1 { 1i32 } else { interval },
            ease_factor: if self.ease_factor == 0 { INITIAL_EASE_FACTOR } else { self.ease_factor },
            ..self
        }
    }

    /// Whether the card is well formed.
    pub fn is_wf(&self) -> (ok: bool)
        ensures
            ok == self.wf(),
    {
        self.interval >= 0 && self.ease_factor >= 0 && self.remaining_steps >= 0
    }

    pub fn new(due: i64) -> (card: Card)
        ensures
            card == Card::fresh(due),
    {
        let mut card = Card::default();
        card.due = due;
        card
    }

    /// Resets the card to the new state at `position`. Counters are kept.
    pub fn schedule_as_new(&mut self, position: i64)
        ensures
            *final(self) == old(self).as_new(position),
    {
        self.due = position;
        self.card_type = CardType::New;
        self.card_queue = CardQueue::New;
        self.interval = 0;
        self.ease_factor = INITIAL_EASE_FACTOR;
    }

    /// Graduates the card straight to review with the given interval.
    pub fn schedule_as_review(&mut self, interval: i32, today: i64)
        requires
            i64::MIN <= today + interval <= i64::MAX,
        ensures
            *final(self) == old(self).as_review(interval, today),
    {
        self.interval = if interval < 1 { 1 } else { interval };
        self.due = today + interval as i64;
        self.card_type = CardType::Review;
        self.card_queue = CardQueue::Review;
        if self.ease_factor == 0 {
            self.ease_factor = INITIAL_EASE_FACTOR;
        }
    }

    /// Moves the card to `position` if it is new; any other card is left as it is.
    pub fn set_new_position(&mut self, position: i64)
        ensures
            *final(self) == if old(self).card_queue == CardQueue::New && old(self).card_type
                == CardType::New {
                Card { due: position, ..*old(self) }
            } else {
                *old(self)
            },
    {
        if self.card_queue != CardQueue::New || self.card_type != CardType::New {
            return ;
        }
        self.due = position;
    }
}

impl Default for Card {
    fn default() -> (card: Card)
        ensures
            card == Card::fresh(0),
    {
        Card {
            card_type: CardType::New,
            card_queue: CardQueue::New,
            due: 0,
            interval: 0,
            ease_factor: 0,
            reps: 0,
            lapses: 0,
            remaining_steps: 0,
        }
    }
}

} // verus!
