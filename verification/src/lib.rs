//! Spaced-repetition scheduling for a single card, in the SM-2 family.
//!
//! A [`scheduler::Scheduler`] owns one [`card::Card`] and one
//! [`config::Config`], is bound to a study day, and moves the card from state
//! to state as answers come in. All quantities are integers: delays are whole
//! seconds, intervals whole days, and every multiplier is held in permille.
//!
//! Two things come from outside and are never predicted by a contract: the
//! clock and the random draws. A function that consults them says what holds
//! for every reading and every draw: the card becomes what the model of an
//! answer, [`scheduler::Scheduler::answered`], makes of it for some reading
//! and some possible draws. A caller who brings the reading and the draws
//! himself uses [`scheduler::Scheduler::answer_with`], and gets exactly the
//! card of the model. The arithmetic below that is exact too: the delay of a
//! step, the place of a card that waits, the bounds of a fuzz range and the
//! interval of a review are functions of their arguments alone.

pub mod card;
pub mod config;
pub mod fuzz;
pub mod interval;
pub mod invariants;
pub mod learn;
pub mod preview;
pub mod random;
pub mod review;
pub mod scheduler;
pub mod steps;
pub mod timespan;
pub mod timestamp;
