//! Round-trip time estimation from a stream of delay samples.
use std::collections::VecDeque;
use vstd::prelude::*;

verus! {

broadcast use vstd::std_specs::vecdeque::group_vec_dequeue_axioms;

/// Number of most recent samples kept in the window.
pub const WINDOW_SAMPLES: usize = 60;

/// Number of samples required before the historical minimum is reported.
pub const MIN_SAMPLES: usize = 10;

/// Smallest element of a non-empty sequence.
pub open spec fn seq_min(s: Seq<u32>) -> u32
    decreases s.len(),
{
    if s.len() <= 1 {
        s[0]
    } else {
        let m = seq_min(s.drop_last());
        if s.last() < m {
            s.last()
        } else {
            m
        }
    }
}

/// `seq_min` is an element of the sequence and no element is smaller.
pub proof fn lemma_seq_min(s: Seq<u32>)
    requires
        s.len() > 0,
    ensures
        s.contains(seq_min(s)),
        forall|i: int| 0 <= i < s.len() ==> seq_min(s) <= #[trigger] s[i],
    decreases s.len(),
{
    if s.len() > 1 {
        lemma_seq_min(s.drop_last());
        let m = seq_min(s.drop_last());
        let k = choose|k: int| 0 <= k < s.drop_last().len() && s.drop_last()[k] == m;
        assert(s[k] == m);
        if s.last() < m {
            assert(s[s.len() - 1] == seq_min(s));
        }
        assert forall|i: int| 0 <= i < s.len() implies seq_min(s) <= #[trigger] s[i] by {
            if i < s.len() - 1 {
                assert(s.drop_last()[i] == s[i]);
            }
        }
    } else {
        assert(s[0] == seq_min(s));
    }
}

/// The abstract state of an RTT estimator.
pub struct RttView {
    /// Smallest sample ever observed.
    pub min_rtt: Option<u32>,
    /// Smallest sample in the current window.
    pub window_min_rtt: Option<u32>,
    /// Average of the historical and the window minimum, once the window is full.
    pub smoothed_rtt: Option<u32>,
    /// The most recent samples, oldest first.
    pub samples: Seq<u32>,
}

/// Mean of the historical minimum and the window minimum, rounded down.
pub open spec fn smoothed_of(min_rtt: u32, window_min: u32) -> u32 {
    ((min_rtt as int + window_min as int) / 2) as u32
}

impl RttView {
    /// The estimator before any sample.
    pub open spec fn initial() -> RttView {
        RttView { min_rtt: None, window_min_rtt: None, smoothed_rtt: None, samples: Seq::empty() }
    }

    /// The window after one more sample: the oldest one leaves once the window is full.
    pub open spec fn window_after(self, delay: u32) -> Seq<u32> {
        if self.samples.len() >= WINDOW_SAMPLES {
            self.samples.drop_first().push(delay)
        } else {
            self.samples.push(delay)
        }
    }

    /// Well-formedness: the window is bounded, and the minima and the smoothed
    /// value agree with the samples.
    pub open spec fn wf(self) -> bool {
        &&& self.samples.len() <= WINDOW_SAMPLES
        &&& self.window_min_rtt == (if self.samples.len() == 0 {
            None
        } else {
            Some(seq_min(self.samples))
        })
        &&& (self.samples.len() > 0 ==> self.min_rtt is Some)
        &&& (self.min_rtt is Some ==> self.samples.len() > 0 && self.min_rtt->0 <= seq_min(
            self.samples,
        ))
        &&& self.smoothed_rtt == (if self.samples.len() == WINDOW_SAMPLES {
            Some(smoothed_of(self.min_rtt->0, self.window_min_rtt->0))
        } else {
            None
        })
    }

    /// The state after recording one more sample.
    pub open spec fn after_update(self, delay: u32) -> RttView {
        let min_rtt = match self.min_rtt {
            Some(m) => if delay < m {
                Some(delay)
            } else {
                Some(m)
            },
            None => Some(delay),
        };
        let samples = self.window_after(delay);
        let window_min = Some(seq_min(samples));
        RttView {
            min_rtt,
            window_min_rtt: window_min,
            smoothed_rtt: if samples.len() >= WINDOW_SAMPLES {
                Some(smoothed_of(min_rtt->0, window_min->0))
            } else {
                self.smoothed_rtt
            },
            samples,
        }
    }

    /// The current estimate: the smoothed value when available, else the
    /// historical minimum once enough samples were seen.
    pub open spec fn rtt(self) -> Option<u32> {
        if self.smoothed_rtt is Some {
            self.smoothed_rtt
        } else if self.samples.len() >= MIN_SAMPLES {
            self.min_rtt
        } else {
            None
        }
    }
}

/// Estimates the network round-trip time from delay samples.
pub struct RttCalculator {
    min_rtt: Option<u32>,
    window_min_rtt: Option<u32>,
    smoothed_rtt: Option<u32>,
    samples: VecDeque<u32>,
}

impl View for RttCalculator {
    type V = RttView;

    closed spec fn view(&self) -> RttView {
        RttView {
            min_rtt: self.min_rtt,
            window_min_rtt: self.window_min_rtt,
            smoothed_rtt: self.smoothed_rtt,
            samples: self.samples@,
        }
    }
}

impl Clone for RttCalculator {
    fn clone(&self) -> (res: Self)
        ensures
            res@ == self@,
    {
        let mut samples: VecDeque<u32> = VecDeque::new();
        let n = self.samples.len();
        for i in 0..n
            invariant
                n == self.samples@.len(),
                samples@ == self.samples@.take(i as int),
        {
            samples.push_back(self.samples[i]);
            assert(self.samples@.take(i + 1) == self.samples@.take(i as int).push(self.samples@[i as int]));
        }
        assert(self.samples@.take(n as int) == self.samples@);
        RttCalculator {
            min_rtt: self.min_rtt,
            window_min_rtt: self.window_min_rtt,
            smoothed_rtt: self.smoothed_rtt,
            samples,
        }
    }
}

impl Default for RttCalculator {
    fn default() -> (res: Self)
        ensures
            res@ == RttView::initial(),
            res@.wf(),
    {
        RttCalculator { min_rtt: None, window_min_rtt: None, smoothed_rtt: None, samples: VecDeque::new() }
    }
}

impl RttCalculator {
    /// Smallest sample in the window, computed by a scan.
    fn window_minimum(&self) -> (res: Option<u32>)
        ensures
            res == (if self.samples@.len() == 0 {
                None
            } else {
                Some(seq_min(self.samples@))
            }),
    {
        let n = self.samples.len();
        if n == 0 {
            return None;
        }
        let mut m = self.samples[0];
        assert(self.samples@.take(1).drop_last().len() == 0);
        let mut i: usize = 1;
        while i < n
            invariant
                1 <= i <= n,
                n == self.samples@.len(),
                m == seq_min(self.samples@.take(i as int)),
            decreases n - i,
        {
            let x = self.samples[i];
            assert(self.samples@.take(i + 1).drop_last() == self.samples@.take(i as int));
            if x < m {
                m = x;
            }
            i = i + 1;
        }
        assert(self.samples@.take(n as int) == self.samples@);
        Some(m)
    }

    /// Records a new delay sample and refreshes the estimates.
    pub fn update(&mut self, delay: u32)
        requires
            old(self)@.wf(),
        ensures
            final(self)@ == old(self)@.after_update(delay),
            final(self)@.wf(),
    {
        let ghost pre = self@;
        match self.min_rtt {
            Some(min_rtt) => {
                if delay < min_rtt {
                    self.min_rtt = Some(delay);
                }
            },
            None => {
                self.min_rtt = Some(delay);
            },
        }
        if self.samples.len() >= WINDOW_SAMPLES {
            self.samples.pop_front();
        }
        self.samples.push_back(delay);
        assert(self.samples@ == pre.window_after(delay));
        self.window_min_rtt = self.window_minimum();
        if self.samples.len() >= WINDOW_SAMPLES {
            match (self.min_rtt, self.window_min_rtt) {
                (Some(min), Some(window_min)) => {
                    let s: u64 = (min as u64 + window_min as u64) / 2;
                    self.smoothed_rtt = Some(s as u32);
                },
                _ => {},
            }
        }
        proof {
            let post = self@;
            let s = post.samples;
            lemma_seq_min(s);
            assert(s.last() == delay);
            if pre.samples.len() > 0 {
                lemma_seq_min(pre.samples);
                let m = pre.min_rtt->0;
                assert forall|i: int| 0 <= i < s.len() implies post.min_rtt->0 <= #[trigger] s[i] by {
                    if i < s.len() - 1 {
                        if pre.samples.len() >= WINDOW_SAMPLES {
                            assert(s[i] == pre.samples[i + 1]);
                        } else {
                            assert(s[i] == pre.samples[i]);
                        }
                    }
                }
            }
            let k = choose|k: int| 0 <= k < s.len() && s[k] == seq_min(s);
            assert(post.min_rtt->0 <= s[k]);
        }
    }

    /// Returns the current RTT estimate, if one is available.
    pub fn get_rtt(&self) -> (res: Option<u32>)
        requires
            self@.wf(),
        ensures
            res == self@.rtt(),
    {
        if let Some(rtt) = self.smoothed_rtt {
            return Some(rtt);
        }
        if self.samples.len() >= MIN_SAMPLES {
            if let Some(rtt) = self.min_rtt {
                return Some(rtt);
            }
        }
        None
    }
}

} // verus!
