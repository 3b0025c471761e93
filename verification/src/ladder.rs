//! The price ladder's chase tracker: a small state machine that
//! follows runs of the best bid or ask in one direction, then fades
//! the highlight once the run stalls or reverses.

use vstd::prelude::*;

use crate::numeric::Price;

verus! {

/// A side of the ladder.
#[derive(Debug, Clone, Copy, PartialEq, Eq, Structural)]
pub enum Side {
    Bid,
    Ask,
}

impl Side {
    /// The side's index into two-element per-side arrays.
    pub fn idx(self) -> (r: usize)
        ensures
            self == Side::Bid ==> r == 0,
            self == Side::Ask ==> r == 1,
    {
        match self {
            Side::Bid => 0,
            Side::Ask => 1,
        }
    }

    pub fn is_bid(self) -> (r: bool)
        ensures
            r == (self == Side::Bid),
    {
        matches!(self, Side::Bid)
    }
}

/// Which way the tracked best price is running.
#[derive(Debug, Clone, Copy, PartialEq, Eq, Structural)]
pub enum Direction {
    Up,
    Down,
}

/// The tracker's phase: idle, chasing a run, or fading a finished run.
#[derive(Debug, Clone, Copy, PartialEq, Eq, Structural, Default)]
pub enum ChaseProgress {
    #[default]
    Idle,
    Chasing { direction: Direction, start: Price, end: Price, consecutive: u32 },
    Fading {
        direction: Direction,
        start: Price,
        end: Price,
        start_consecutive: u32,
        fade_steps: u32,
    },
}

/// Follows the best price of one side across updates.
#[derive(Debug, Clone, Copy, PartialEq, Eq, Structural, Default)]
pub struct ChaseTracker {
    pub last_best: Option<Price>,
    pub state: ChaseProgress,
    pub last_update_ms: Option<u64>,
}

/// Whether a fading highlight has decayed below the visible floor:
/// its strength is n/(1+n) shrunk by 1/(1+f), and the floor is 15
/// hundredths, so it is invisible exactly when 20n < 3(1+n)(1+f).
pub open spec fn fade_invisible(n: u32, f: u32) -> bool {
    20 * n < 3 * (1 + n) * (1 + f)
}

/// One transition of the tracker on a new best price.
pub open spec fn chase_step_spec(
    t: ChaseTracker,
    current_best: Option<Price>,
    is_bid: bool,
    now_ms: u64,
    max_interval_ms: u64,
) -> ChaseTracker {
    let t1 = if t.last_update_ms matches Some(prev) && max_interval_ms > 0 && (if now_ms >= prev {
        now_ms - prev
    } else {
        0
    }) > max_interval_ms {
        ChaseTracker { last_best: None, state: ChaseProgress::Idle, last_update_ms: None }
    } else {
        t
    };
    match current_best {
        None => ChaseTracker { last_best: None, state: ChaseProgress::Idle, last_update_ms: None },
        Some(current) => {
            let state = match t1.last_best {
                None => t1.state,
                Some(last) => chase_state_step(t1.state, last, current, is_bid),
            };
            ChaseTracker { last_best: Some(current), state, last_update_ms: Some(now_ms) }
        },
    }
}

/// The phase transition itself, given the previous and current best.
pub open spec fn chase_state_step(
    state: ChaseProgress,
    last: Price,
    current: Price,
    is_bid: bool,
) -> ChaseProgress {
    let direction = if is_bid {
        Direction::Up
    } else {
        Direction::Down
    };
    let is_continue = if is_bid {
        current.units > last.units
    } else {
        current.units < last.units
    };
    let is_reverse = if is_bid {
        current.units < last.units
    } else {
        current.units > last.units
    };
    let is_unchanged = current.units == last.units;
    let next = match state {
        ChaseProgress::Chasing { direction: sdir, start, end, consecutive } => {
            if is_continue && sdir == direction {
                ChaseProgress::Chasing {
                    direction,
                    start,
                    end: current,
                    consecutive: if consecutive < u32::MAX {
                        (consecutive + 1) as u32
                    } else {
                        u32::MAX
                    },
                }
            } else if (is_reverse || is_unchanged) && consecutive > 0 {
                ChaseProgress::Fading {
                    direction: sdir,
                    start,
                    end,
                    start_consecutive: consecutive,
                    fade_steps: 0,
                }
            } else {
                state
            }
        },
        ChaseProgress::Idle => {
            if is_continue {
                ChaseProgress::Chasing { direction, start: last, end: current, consecutive: 1 }
            } else {
                ChaseProgress::Idle
            }
        },
        ChaseProgress::Fading { direction: sdir, start, end, start_consecutive, fade_steps } => {
            if is_continue {
                ChaseProgress::Chasing { direction, start: last, end: current, consecutive: 1 }
            } else if is_unchanged || is_reverse {
                ChaseProgress::Fading {
                    direction: sdir,
                    start,
                    end,
                    start_consecutive,
                    fade_steps: if fade_steps < u32::MAX {
                        (fade_steps + 1) as u32
                    } else {
                        u32::MAX
                    },
                }
            } else {
                state
            }
        },
    };
    match next {
        ChaseProgress::Fading { start_consecutive, fade_steps, .. } => {
            if fade_invisible(start_consecutive, fade_steps) {
                ChaseProgress::Idle
            } else {
                next
            }
        },
        _ => next,
    }
}

impl ChaseTracker {
    pub fn new() -> (r: ChaseTracker)
        ensures
            r.last_best is None,
            r.state == ChaseProgress::Idle,
            r.last_update_ms is None,
    {
        ChaseTracker { last_best: None, state: ChaseProgress::Idle, last_update_ms: None }
    }

    /// Forget everything tracked so far.
    pub fn reset(&mut self)
        ensures
            final(self).last_best is None,
            final(self).state == ChaseProgress::Idle,
            final(self).last_update_ms is None,
    {
        self.last_best = None;
        self.state = ChaseProgress::Idle;
        self.last_update_ms = None;
    }

    /// Feed the tracker the side's current best price. A silence
    /// longer than `max_interval_ms` resets it first; a vanished side
    /// resets it entirely.
    pub fn update(
        &mut self,
        current_best: Option<Price>,
        is_bid: bool,
        now_ms: u64,
        max_interval_ms: u64,
    )
        ensures
            *final(self) == chase_step_spec(*old(self), current_best, is_bid, now_ms,
            max_interval_ms),
    {
        match self.last_update_ms {
            Some(prev) => {
                let elapsed: u64 = if now_ms >= prev {
                    now_ms - prev
                } else {
                    0
                };
                if max_interval_ms > 0 && elapsed > max_interval_ms {
                    self.reset();
                }
            },
            None => {},
        }
        let current: Price = match current_best {
            Some(c) => c,
            None => {
                self.reset();
                return;
            },
        };
        match self.last_best {
            Some(last) => {
                self.state = Self::state_step(self.state, last, current, is_bid);
            },
            None => {},
        }
        self.last_best = Some(current);
        self.last_update_ms = Some(now_ms);
    }

    /// One phase transition, with the fade-out cutoff applied.
    fn state_step(state: ChaseProgress, last: Price, current: Price, is_bid: bool) -> (r:
        ChaseProgress)
        ensures
            r == chase_state_step(state, last, current, is_bid),
    {
        let direction: Direction = if is_bid {
            Direction::Up
        } else {
            Direction::Down
        };
        let is_continue: bool = if is_bid {
            current.units > last.units
        } else {
            current.units < last.units
        };
        let is_reverse: bool = if is_bid {
            current.units < last.units
        } else {
            current.units > last.units
        };
        let is_unchanged: bool = current.units == last.units;
        let next: ChaseProgress = match state {
            ChaseProgress::Chasing { direction: sdir, start, end, consecutive } => {
                if is_continue && sdir == direction {
                    ChaseProgress::Chasing {
                        direction,
                        start,
                        end: current,
                        consecutive: if consecutive < u32::MAX {
                            consecutive + 1
                        } else {
                            u32::MAX
                        },
                    }
                } else if (is_reverse || is_unchanged) && consecutive > 0 {
                    ChaseProgress::Fading {
                        direction: sdir,
                        start,
                        end,
                        start_consecutive: consecutive,
                        fade_steps: 0,
                    }
                } else {
                    state
                }
            },
            ChaseProgress::Idle => {
                if is_continue {
                    ChaseProgress::Chasing {
                        direction,
                        start: last,
                        end: current,
                        consecutive: 1,
                    }
                } else {
                    ChaseProgress::Idle
                }
            },
            ChaseProgress::Fading {
                direction: sdir,
                start,
                end,
                start_consecutive,
                fade_steps,
            } => {
                if is_continue {
                    ChaseProgress::Chasing {
                        direction,
                        start: last,
                        end: current,
                        consecutive: 1,
                    }
                } else if is_unchanged || is_reverse {
                    ChaseProgress::Fading {
                        direction: sdir,
                        start,
                        end,
                        start_consecutive,
                        fade_steps: if fade_steps < u32::MAX {
                            fade_steps + 1
                        } else {
                            u32::MAX
                        },
                    }
                } else {
                    state
                }
            },
        };
        match next {
            ChaseProgress::Fading { start_consecutive, fade_steps, .. } => {
                proof {
                    assert((1 + start_consecutive as int) * (1 + fade_steps as int)
                        <= 18_446_744_073_709_551_616) by (nonlinear_arith)
                        requires
                            0 <= start_consecutive as int <= 4_294_967_295,
                            0 <= fade_steps as int <= 4_294_967_295,
                    ;
                }
                let lhs: u64 = 20u64 * (start_consecutive as u64);
                let rhs: u128 = 3u128 * ((1u128 + start_consecutive as u128) * (1u128
                    + fade_steps as u128));
                proof {
                    assert(3 * ((1 + start_consecutive as int) * (1 + fade_steps as int)) == 3
                        * (1 + start_consecutive as int) * (1 + fade_steps as int))
                        by (nonlinear_arith);
                }
                if (lhs as u128) < rhs {
                    ChaseProgress::Idle
                } else {
                    next
                }
            },
            _ => next,
        }
    }
}

} // verus!
