//! Per-user network delay history and the frame-rate reaction to it.
use crate::rtt::{RttCalculator, RttView};
use std::collections::VecDeque;
use vstd::prelude::*;

verus! {

broadcast use vstd::std_specs::vecdeque::group_vec_dequeue_axioms;

/// Lowest frame rate ever used.
pub const MIN_FPS: u32 = 1;

/// Highest frame rate ever used.
pub const MAX_FPS: u32 = 120;

/// Number of delay samples kept beyond the newest one.
pub const HISTORY_DELAY_LEN: usize = 2;

/// Delay (ms) below which the network is considered good.
pub const DELAY_THRESHOLD_150MS: u32 = 150;

/// Sum of a sequence of samples.
pub open spec fn seq_sum(s: Seq<u32>) -> int
    decreases s.len(),
{
    if s.len() == 0 {
        0
    } else {
        seq_sum(s.drop_last()) + s.last()
    }
}

/// A sum of samples is at most their number times the largest possible sample.
pub proof fn lemma_seq_sum_bound(s: Seq<u32>)
    ensures
        0 <= seq_sum(s) <= s.len() * (u32::MAX as int),
    decreases s.len(),
{
    if s.len() > 0 {
        lemma_seq_sum_bound(s.drop_last());
    }
}

/// The abstract state of a user's delay tracker.
pub struct UserDelayView {
    /// Whether the last delay response arrived late.
    pub response_delayed: bool,
    /// The most recent delay samples, oldest first.
    pub delay_history: Seq<u32>,
    /// The frame rate chosen for this user, once a delay sample arrived.
    pub fps: Option<u32>,
    /// The round-trip estimator fed with every sample.
    pub rtt: RttView,
    /// Consecutive samples with a very small delay.
    pub quick_increase_fps_count: nat,
    /// Consecutive samples with a small delay.
    pub increase_fps_count: nat,
}

impl UserDelayView {
    /// A tracker before any sample.
    pub open spec fn initial() -> UserDelayView {
        UserDelayView {
            response_delayed: false,
            delay_history: Seq::empty(),
            fps: None,
            rtt: RttView::initial(),
            quick_increase_fps_count: 0,
            increase_fps_count: 0,
        }
    }

    /// Well-formedness of a delay tracker.
    pub open spec fn wf(self) -> bool {
        &&& self.delay_history.len() <= HISTORY_DELAY_LEN + 1
        &&& self.rtt.wf()
        &&& self.quick_increase_fps_count < 3
        &&& self.increase_fps_count < 3
    }

    /// The history after recording one more sample.
    pub open spec fn history_after(self, delay: u32) -> Seq<u32> {
        if self.delay_history.len() > HISTORY_DELAY_LEN {
            self.delay_history.drop_first().push(delay)
        } else {
            self.delay_history.push(delay)
        }
    }

    /// The tracker after recording one more sample.
    pub open spec fn after_delay(self, delay: u32) -> UserDelayView {
        UserDelayView {
            delay_history: self.history_after(delay),
            rtt: self.rtt.after_update(delay),
            ..self
        }
    }

    /// Average delay of the history minus the RTT estimate when that is smaller;
    /// the threshold when there is no history yet.
    pub open spec fn avg_delay(self) -> u32 {
        if self.delay_history.len() > 0 {
            let avg = (seq_sum(self.delay_history) / (self.delay_history.len() as int)) as u32;
            match self.rtt.rtt() {
                Some(rtt) => if avg > rtt {
                    (avg - rtt) as u32
                } else {
                    avg
                },
                None => avg,
            }
        } else {
            DELAY_THRESHOLD_150MS
        }
    }
}

/// Ceiling of `a / b`.
pub open spec fn ceil_div(a: int, b: int) -> int {
    (a + b - 1) / b
}

/// The frame rate proposed for a delay sample, before the final counters.
/// `avg` is the new average delay (at least 10) and `old_avg` the previous one.
/// Under 150 ms the rate never drops below the quality's minimum and may rise;
/// from 150 ms on it stays below the minimum: up to 300 ms the current rate
/// scaled by 150 / delay, at most one below the minimum; beyond, the minimum
/// scaled by 150 / delay.
pub open spec fn proposed_fps(
    avg: u32,
    old_avg: u32,
    fps: u32,
    min_fps: u32,
    normal_fps: u32,
    quick_count_after: nat,
    quick_reached: bool,
) -> int {
    let dividend = DELAY_THRESHOLD_150MS * min_fps;
    if avg < 50 {
        let step: int = if quick_reached {
            5
        } else if fps < normal_fps {
            1
        } else {
            0
        };
        vstd::math::max(min_fps as int, fps + step)
    } else if avg < 100 {
        let step: int = if avg < old_avg && fps < normal_fps {
            1
        } else {
            0
        };
        vstd::math::max(min_fps as int, fps + step)
    } else if avg < DELAY_THRESHOLD_150MS {
        vstd::math::max(min_fps as int, fps as int)
    } else {
        let divided = ceil_div(fps * DELAY_THRESHOLD_150MS, avg as int);
        let below_min: int = if min_fps > 0 {
            min_fps - 1
        } else {
            0
        };
        if avg < 300 {
            vstd::math::min(below_min, divided)
        } else if avg < 600 {
            dividend / (avg as int)
        } else {
            vstd::math::min(dividend / (avg as int), divided)
        }
    }
}

/// The average delay of a user once a sample is taken into account (at
/// least 10 ms).
pub open spec fn new_avg_delay(v: UserDelayView, delay: u32) -> u32 {
    let d = if delay < 10 {
        10
    } else {
        delay
    };
    let a = v.after_delay(d).avg_delay();
    if a < 10 {
        10
    } else {
        a
    }
}

/// Clamps `v` into `[lo, hi]` (with `lo <= hi`).
pub open spec fn clamp(v: int, lo: int, hi: int) -> int {
    if v < lo {
        lo
    } else if v > hi {
        hi
    } else {
        v
    }
}

/// The tracker and frame rate after a network delay report.
///
/// `fps` is the session's current frame rate, `min_fps`/`normal_fps` the
/// bounds for the current quality, `highest_fps` the users' upper limit.
pub open spec fn after_network_delay(
    v: UserDelayView,
    delay: u32,
    fps: u32,
    min_fps: u32,
    normal_fps: u32,
    highest_fps: u32,
) -> (UserDelayView, u32) {
    let delay = if delay < 10 {
        10
    } else {
        delay
    };
    let old_avg = v.avg_delay();
    let v1 = v.after_delay(delay);
    let raw_avg = v1.avg_delay();
    let avg = if raw_avg < 10 {
        10u32
    } else {
        raw_avg
    };
    let quick_incremented = if avg < 50 {
        v.quick_increase_fps_count + 1
    } else {
        v.quick_increase_fps_count
    };
    let quick_reached = avg < 50 && quick_incremented >= 3;
    let quick_after_rule = if quick_reached {
        0
    } else {
        quick_incremented
    };
    let proposed = proposed_fps(avg, old_avg, fps, min_fps, normal_fps, quick_incremented, quick_reached);
    let inc_count = if avg < DELAY_THRESHOLD_150MS {
        v.increase_fps_count + 1
    } else {
        0
    };
    let (inc_count, proposed) = if inc_count >= 3 {
        (0nat, proposed + 1)
    } else {
        (inc_count, proposed)
    };
    let quick_final: nat = if avg > 50 {
        0
    } else {
        quick_after_rule
    };
    let new_fps = clamp(proposed, MIN_FPS as int, highest_fps as int) as u32;
    (
        UserDelayView {
            quick_increase_fps_count: quick_final,
            increase_fps_count: inc_count,
            fps: Some(new_fps),
            ..v1
        },
        new_fps,
    )
}

/// A user's delay history, RTT estimator and the frame rate chosen for them.
pub struct UserDelay {
    response_delayed: bool,
    delay_history: VecDeque<u32>,
    fps: Option<u32>,
    rtt_calculator: RttCalculator,
    quick_increase_fps_count: usize,
    increase_fps_count: usize,
}

impl View for UserDelay {
    type V = UserDelayView;

    closed spec fn view(&self) -> UserDelayView {
        UserDelayView {
            response_delayed: self.response_delayed,
            delay_history: self.delay_history@,
            fps: self.fps,
            rtt: self.rtt_calculator@,
            quick_increase_fps_count: self.quick_increase_fps_count as nat,
            increase_fps_count: self.increase_fps_count as nat,
        }
    }
}

impl Default for UserDelay {
    fn default() -> (res: Self)
        ensures
            res@ == UserDelayView::initial(),
            res@.wf(),
    {
        UserDelay {
            response_delayed: false,
            delay_history: VecDeque::new(),
            fps: None,
            rtt_calculator: RttCalculator::default(),
            quick_increase_fps_count: 0,
            increase_fps_count: 0,
        }
    }
}

impl UserDelay {
    /// Records a delay sample in the history and the RTT estimator.
    pub fn add_delay(&mut self, delay: u32)
        requires
            old(self)@.wf(),
        ensures
            final(self)@ == old(self)@.after_delay(delay),
            final(self)@.wf(),
    {
        self.rtt_calculator.update(delay);
        if self.delay_history.len() > HISTORY_DELAY_LEN {
            self.delay_history.pop_front();
        }
        self.delay_history.push_back(delay);
        proof {
            let ghost h = self.delay_history@;
            assert(h == old(self)@.history_after(delay));
        }
    }

    /// Average delay minus the RTT estimate (when smaller than the average).
    pub fn avg_delay(&self) -> (res: u32)
        requires
            self@.wf(),
        ensures
            res == self@.avg_delay(),
    {
        let len = self.delay_history.len();
        if len > 0 {
            let mut sum: u64 = 0;
            let mut i: usize = 0;
            while i < len
                invariant
                    0 <= i <= len,
                    len == self.delay_history@.len(),
                    len <= 3,
                    sum == seq_sum(self.delay_history@.take(i as int)),
                decreases len - i,
            {
                proof {
                    assert(self.delay_history@.take(i + 1).drop_last() == self.delay_history@.take(
                        i as int,
                    ));
                    lemma_seq_sum_bound(self.delay_history@.take(i as int));
                }
                sum = sum + self.delay_history[i] as u64;
                i = i + 1;
            }
            proof {
                assert(self.delay_history@.take(len as int) == self.delay_history@);
                lemma_seq_sum_bound(self.delay_history@);
                assert(sum / (len as u64) <= u32::MAX) by (nonlinear_arith)
                    requires
                        sum <= len * (u32::MAX as int),
                        len > 0,
                ;
            }
            let avg_delay: u32 = (sum / (len as u64)) as u32;
            if let Some(rtt) = self.rtt_calculator.get_rtt() {
                if avg_delay > rtt {
                    avg_delay - rtt
                } else {
                    avg_delay
                }
            } else {
                avg_delay
            }
        } else {
            DELAY_THRESHOLD_150MS
        }
    }

    /// Whether the last delay response arrived late.
    pub fn response_delayed(&self) -> (res: bool)
        ensures
            res == self@.response_delayed,
    {
        self.response_delayed
    }

    /// Records whether the last delay response arrived late.
    pub fn set_response_delayed(&mut self, delayed: bool)
        ensures
            final(self)@ == (UserDelayView { response_delayed: delayed, ..old(self)@ }),
    {
        self.response_delayed = delayed;
    }

    /// The frame rate chosen for this user, if any delay sample arrived.
    pub fn fps(&self) -> (res: Option<u32>)
        ensures
            res == self@.fps,
    {
        self.fps
    }

    /// The user's current RTT estimate.
    pub fn rtt(&self) -> (res: Option<u32>)
        requires
            self@.wf(),
        ensures
            res == self@.rtt.rtt(),
    {
        self.rtt_calculator.get_rtt()
    }

    /// Reacts to a network delay report: records the sample and chooses this
    /// user's new frame rate, which is returned.
    #[verifier::spinoff_prover]
    #[verifier::rlimit(50)]
    pub fn on_network_delay(
        &mut self,
        delay: u32,
        fps: u32,
        min_fps: u32,
        normal_fps: u32,
        highest_fps: u32,
    ) -> (res: u32)
        requires
            old(self)@.wf(),
            MIN_FPS <= highest_fps,
        ensures
            (final(self)@, res) == after_network_delay(
                old(self)@,
                delay,
                fps,
                min_fps,
                normal_fps,
                highest_fps,
            ),
            MIN_FPS <= res <= highest_fps,
            new_avg_delay(old(self)@, delay) >= DELAY_THRESHOLD_150MS && min_fps >= 2 ==> res
                < min_fps,
            final(self)@.wf(),
    {
        let ghost v0 = self@;
        let dividend_ms: u64 = DELAY_THRESHOLD_150MS as u64 * min_fps as u64;
        let delay = if delay < 10 {
            10
        } else {
            delay
        };
        let old_avg_delay = self.avg_delay();
        self.add_delay(delay);
        let ghost v1 = self@;
        let mut avg_delay = self.avg_delay();
        if avg_delay < 10 {
            avg_delay = 10;
        }
        let fps64: u64 = fps as u64;
        let min64: u64 = min_fps as u64;
        let mut new_fps: u64;
        let ghost quick_incremented: nat = if avg_delay < 50 {
            v0.quick_increase_fps_count + 1
        } else {
            v0.quick_increase_fps_count
        };
        let ghost quick_reached = avg_delay < 50 && quick_incremented >= 3;
        if avg_delay < 50 {
            self.quick_increase_fps_count = self.quick_increase_fps_count + 1;
            let mut step: u64 = if fps < normal_fps {
                1
            } else {
                0
            };
            if self.quick_increase_fps_count >= 3 {
                self.quick_increase_fps_count = 0;
                step = 5;
            }
            new_fps = if min64 > fps64 + step {
                min64
            } else {
                fps64 + step
            };
        } else if avg_delay < 100 {
            let step: u64 = if avg_delay < old_avg_delay {
                if fps < normal_fps {
                    1
                } else {
                    0
                }
            } else {
                0
            };
            new_fps = if min64 > fps64 + step {
                min64
            } else {
                fps64 + step
            };
        } else if avg_delay < DELAY_THRESHOLD_150MS {
            new_fps = if min64 > fps64 {
                min64
            } else {
                fps64
            };
        } else {
            let a: u64 = avg_delay as u64;
            let divided: u64 = (fps64 * DELAY_THRESHOLD_150MS as u64 + a - 1) / a;
            let below_min: u64 = if min64 > 0 {
                min64 - 1
            } else {
                0
            };
            if avg_delay < 300 {
                new_fps = if below_min < divided {
                    below_min
                } else {
                    divided
                };
            } else if avg_delay < 600 {
                new_fps = dividend_ms / a;
            } else {
                let q = dividend_ms / a;
                new_fps = if q < divided {
                    q
                } else {
                    divided
                };
            }
        }
        assert(new_fps == proposed_fps(
            avg_delay,
            old_avg_delay,
            fps,
            min_fps,
            normal_fps,
            quick_incremented,
            quick_reached,
        ));
        if avg_delay < DELAY_THRESHOLD_150MS {
            self.increase_fps_count = self.increase_fps_count + 1;
        } else {
            self.increase_fps_count = 0;
        }
        if self.increase_fps_count >= 3 {
            self.increase_fps_count = 0;
            new_fps = new_fps + 1;
        }
        if avg_delay > 50 {
            self.quick_increase_fps_count = 0;
        }
        let result: u32 = if new_fps < MIN_FPS as u64 {
            MIN_FPS
        } else if new_fps > highest_fps as u64 {
            highest_fps
        } else {
            new_fps as u32
        };
        self.fps = Some(result);
        assert(MIN_FPS <= result <= highest_fps && (new_avg_delay(v0, delay)
            >= DELAY_THRESHOLD_150MS && min_fps >= 2 ==> result < min_fps)) by {
            crate::laws::law_fps_follows_delay(v0, delay, fps, min_fps, normal_fps, highest_fps);
        }
        result
    }
}

} // verus!
