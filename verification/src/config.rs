//! The tunable policy of one scheduling profile.

use crate::fuzz::{fuzz_bounds, fuzz_fits};
use vstd::prelude::*;

verus! {

/// The largest number of steps that a step sequence may hold: the packed
/// `remaining_steps` of a card keeps the count of steps left below 1000.
pub const MAX_STEPS: usize = 999;

/// The lowest ease factor that a card can fall to, in permille (130%).
pub const MINIMUM_EASE_FACTOR: i32 = 1_300;

/// The order in which new cards are introduced.
#[derive(Clone, Copy, Debug, PartialEq, Eq, Structural)]
pub enum NewCardOrder {
    Due,
    Random,
}

/// The parameters of one scheduling profile.
///
/// Delays are whole seconds and multipliers are permille, so that `1200`
/// stands for a factor of 1.2. The fields from `cap_answer_time` to
/// `bury_reviews`, and `new_card_order`, are carried for the application
/// around the scheduler, which never reads them.
#[derive(Clone, Debug)]
pub struct Config {
    /// Delays of the learning steps, first to last, in seconds.
    pub learn_steps: Vec<u32>,
    /// Delays of the relearning steps, first to last, in seconds.
    pub relearn_steps: Vec<u32>,
    pub cap_answer_time: i32,
    pub visible_time: i32,
    pub new_per_day: i32,
    pub reviews_per_day: i32,
    pub bury_new: bool,
    pub bury_reviews: bool,
    /// Ease factor of a card that graduates for the first time, in permille.
    pub initial_ease: i32,
    /// Extra factor of an easy review, in permille.
    pub easy_multiplier: u32,
    /// Factor of a hard review, in permille.
    pub hard_multiplier: u32,
    /// Factor by which a lapse shrinks the interval, in permille.
    pub lapse_multiplier: u32,
    /// Factor applied to every review interval, in permille.
    pub interval_multiplier: u32,
    /// Upper clamp of a review interval, in days.
    pub maximum_review_interval: i32,
    /// Lower clamp of the interval after a lapse, in days.
    pub minimum_review_interval: i32,
    /// Interval of a card that graduates with a good answer, in days.
    pub graduating_interval_good: i32,
    /// Interval of a card that graduates with an easy answer, in days.
    pub graduating_interval_easy: i32,
    pub new_card_order: NewCardOrder,
    /// Number of lapses at which a card becomes a leech; 0 switches this off.
    pub leech_threshold: i32,
}

impl Config {
    /// The profile can be scheduled with: the step sequences are short
    /// enough to be counted in a card, a graduating interval is a number of
    /// days that can be fuzzed within `i32`, review intervals may reach one
    /// day, and a first ease factor is not below the floor.
    pub open spec fn wf(&self) -> bool {
        &&& self.learn_steps@.len() <= MAX_STEPS
        &&& self.relearn_steps@.len() <= MAX_STEPS
        &&& self.graduating_interval_good >= 0
        &&& fuzz_fits(self.graduating_interval_good as int)
        &&& self.graduating_interval_easy >= 0
        &&& fuzz_fits(self.graduating_interval_easy as int)
        &&& self.maximum_review_interval >= 1
        &&& self.initial_ease >= MINIMUM_EASE_FACTOR
    }

    /// Whether the profile is well formed.
    pub fn is_wf(&self) -> (ok: bool)
        ensures
            ok == self.wf(),
    {
        self.learn_steps.len() <= MAX_STEPS && self.relearn_steps.len() <= MAX_STEPS
            && Self::can_graduate_with(self.graduating_interval_good)
            && Self::can_graduate_with(self.graduating_interval_easy)
            && self.maximum_review_interval >= 1 && self.initial_ease >= MINIMUM_EASE_FACTOR
    }

    /// Whether `days` can be a graduating interval: not negative, and with
    /// a fuzz range inside `i32`.
    pub fn can_graduate_with(days: i32) -> (ok: bool)
        ensures
            ok == (days >= 0 && fuzz_fits(days as int)),
    {
        if days < 0 {
            false
        } else {
            let (low, high) = fuzz_bounds(days as i64);
            high <= 0x7FFF_FFFF
        }
    }

    /// The values of the default profile.
    pub open spec fn is_default(&self) -> bool {
        &&& self.learn_steps@ == seq![60u32, 600u32]
        &&& self.relearn_steps@ == seq![600u32]
        &&& self.cap_answer_time == 60
        &&& self.visible_time == 0
        &&& self.new_per_day == 20
        &&& self.reviews_per_day == 200
        &&& !self.bury_new
        &&& !self.bury_reviews
        &&& self.initial_ease == 2_500
        &&& self.easy_multiplier == 1_300
        &&& self.hard_multiplier == 1_200
        &&& self.lapse_multiplier == 0
        &&& self.interval_multiplier == 1_000
        &&& self.maximum_review_interval == 36_500
        &&& self.minimum_review_interval == 1
        &&& self.graduating_interval_good == 1
        &&& self.graduating_interval_easy == 4
        &&& self.new_card_order == NewCardOrder::Due
        &&& self.leech_threshold == 8
    }
}

impl Default for Config {
    /// Steps of one and ten minutes, one relearning step of ten minutes, and
    /// the usual SM-2 factors.
    fn default() -> (config: Config)
        ensures
            config.is_default(),
            config.wf(),
    {
        let mut learn_steps: Vec<u32> = Vec::new();
        learn_steps.push(60);
        learn_steps.push(600);
        let mut relearn_steps: Vec<u32> = Vec::new();
        relearn_steps.push(600);
        let config = Config {
            learn_steps,
            relearn_steps,
            cap_answer_time: 60,
            visible_time: 0,
            new_per_day: 20,
            reviews_per_day: 200,
            bury_new: false,
            bury_reviews: false,
            initial_ease: 2_500,
            easy_multiplier: 1_300,
            hard_multiplier: 1_200,
            lapse_multiplier: 0,
            interval_multiplier: 1_000,
            maximum_review_interval: 36_500,
            minimum_review_interval: 1,
            graduating_interval_good: 1,
            graduating_interval_easy: 4,
            new_card_order: NewCardOrder::Due,
            leech_threshold: 8,
        };
        assert(config.learn_steps@ =~= seq![60u32, 600u32]);
        assert(config.relearn_steps@ =~= seq![600u32]);
        config
    }
}

} // verus!
