//! The queue-delay driven bitrate and frame-rate controller of HQ sessions.
use crate::profile::{QosState, RateControlMode, VideoProfileType, VideoRateConfig};
use vstd::prelude::*;

verus! {

/// Queue delay (ms) above which the controller stops probing upwards.
pub const HQ_QUEUE_PROBE: u32 = 60;

/// Queue delay (ms) above which the controller treats the link as congested,
/// unless the profile allows a longer queue.
pub const HQ_QUEUE_HOLD: u32 = 150;

/// Queue delay (ms) above which the controller enters the emergency state.
pub const HQ_QUEUE_EMERGENCY: u32 = 250;

/// Consecutive good samples needed before the bitrate is raised.
pub const HQ_GOOD_SAMPLES: u32 = 3;

/// Bitrate reduction (percent) applied in the emergency state.
pub const HQ_EMERGENCY_REDUCE_PERCENT: u32 = 30;

/// The part of a session's state that the controller drives.
#[derive(Clone, Copy, Debug, PartialEq, Eq, Structural)]
pub struct HqControl {
    /// Current bitrate (kbps).
    pub kbps: u32,
    /// Controller state.
    pub state: QosState,
    /// Consecutive good samples seen while probing upwards.
    pub good_samples: u32,
    /// Current frame rate.
    pub fps: u32,
    /// Whether frames queued before now should be dropped.
    pub drop_old_frames: bool,
    /// Whether the next frame must be a keyframe.
    pub need_keyframe: bool,
}

/// The controller state for a queue delay. `frozen` tells whether a recent
/// congestion still forbids probing upwards.
pub open spec fn next_state(queue_delay: u32, rate: VideoRateConfig, frozen: bool) -> QosState {
    let hold = if rate.max_queue_ms > HQ_QUEUE_HOLD {
        rate.max_queue_ms
    } else {
        HQ_QUEUE_HOLD
    };
    if queue_delay > HQ_QUEUE_EMERGENCY {
        QosState::Emergency
    } else if queue_delay > hold {
        QosState::Congested
    } else if queue_delay > HQ_QUEUE_PROBE {
        QosState::Hold
    } else if !frozen {
        QosState::ProbeUp
    } else {
        QosState::Stable
    }
}

/// `a - b`, or 0 when `b > a`.
pub open spec fn sat_sub(a: int, b: int) -> int {
    if a > b {
        a - b
    } else {
        0
    }
}

/// The frame rate after a congestion (`congested`) or a recovery step, in the
/// order of the profile: office and custom profiles step by 2 down and 1 up,
/// motion profiles only give up frames in an emergency (5 at a time) and
/// recover 2 at a time up to the maximum, TCP profiles step by 3 down and 1 up.
pub open spec fn adjusted_fps(
    fps: u32,
    state: QosState,
    profile: VideoProfileType,
    congested: bool,
    rate: VideoRateConfig,
) -> u32 {
    let down = |step: int|
        if fps > rate.min_fps {
            vstd::math::max(sat_sub(fps as int, step), rate.min_fps as int) as u32
        } else {
            fps
        };
    let up = |step: int, limit: u32|
        if fps < rate.target_fps {
            vstd::math::min(fps + step, limit as int) as u32
        } else {
            fps
        };
    match profile {
        VideoProfileType::OfficeClear | VideoProfileType::Custom => if congested {
            down(2)
        } else {
            up(1, rate.target_fps)
        },
        VideoProfileType::MotionSmooth => if congested {
            if state == QosState::Emergency {
                down(5)
            } else {
                fps
            }
        } else {
            up(2, rate.max_fps)
        },
        VideoProfileType::TcpStable => if congested {
            down(3)
        } else {
            up(1, rate.target_fps)
        },
    }
}

/// `kbps * percent / 100`, at least 1.
pub open spec fn percent_step(kbps: u32, percent: u32) -> int {
    vstd::math::max((kbps as int * percent as int) / 100, 1)
}

/// The bitrate after a reduction by `percent`, never below the minimum.
pub open spec fn reduced_kbps(kbps: u32, percent: u32, rate: VideoRateConfig) -> u32 {
    vstd::math::max(sat_sub(kbps as int, percent_step(kbps, percent)), rate.min_kbps as int) as u32
}

/// The bitrate after a recovery step, never above the maximum.
pub open spec fn raised_kbps(kbps: u32, rate: VideoRateConfig) -> u32 {
    vstd::math::min(
        kbps as int + percent_step(kbps, rate.recovery_increase_percent),
        rate.max_kbps as int,
    ) as u32
}

/// One controller step for a measured queue delay. The second component tells
/// whether the recovery freeze restarts (for `rate.recovery_freeze_ms`).
pub open spec fn hq_step_spec(
    c: HqControl,
    rate: VideoRateConfig,
    profile: VideoProfileType,
    queue_delay: u32,
    frozen: bool,
) -> (HqControl, bool) {
    if rate.mode == RateControlMode::FixedBitrate {
        if queue_delay > rate.max_queue_ms {
            (
                HqControl {
                    drop_old_frames: true,
                    need_keyframe: true,
                    state: QosState::Emergency,
                    ..c
                },
                false,
            )
        } else {
            (c, false)
        }
    } else {
        let s = next_state(queue_delay, rate, frozen);
        match s {
            QosState::ProbeUp => {
                let good = c.good_samples + 1;
                if good >= HQ_GOOD_SAMPLES && !frozen {
                    (
                        HqControl {
                            state: s,
                            good_samples: 0,
                            kbps: raised_kbps(c.kbps, rate),
                            fps: adjusted_fps(c.fps, s, profile, false, rate),
                            ..c
                        },
                        false,
                    )
                } else {
                    (HqControl { state: s, good_samples: good as u32, ..c }, false)
                }
            },
            QosState::Congested => (
                HqControl {
                    state: s,
                    good_samples: 0,
                    kbps: reduced_kbps(c.kbps, rate.congestion_reduce_percent, rate),
                    fps: adjusted_fps(c.fps, s, profile, true, rate),
                    ..c
                },
                true,
            ),
            QosState::Emergency => (
                HqControl {
                    state: s,
                    good_samples: 0,
                    kbps: reduced_kbps(c.kbps, HQ_EMERGENCY_REDUCE_PERCENT, rate),
                    fps: adjusted_fps(c.fps, s, profile, true, rate),
                    drop_old_frames: true,
                    need_keyframe: true,
                },
                true,
            ),
            _ => (HqControl { state: s, good_samples: 0, ..c }, false),
        }
    }
}

/// The controller state for a queue delay.
pub fn next_state_for(queue_delay: u32, rate: &VideoRateConfig, frozen: bool) -> (res: QosState)
    ensures
        res == next_state(queue_delay, *rate, frozen),
{
    let hold = if rate.max_queue_ms > HQ_QUEUE_HOLD {
        rate.max_queue_ms
    } else {
        HQ_QUEUE_HOLD
    };
    if queue_delay > HQ_QUEUE_EMERGENCY {
        QosState::Emergency
    } else if queue_delay > hold {
        QosState::Congested
    } else if queue_delay > HQ_QUEUE_PROBE {
        QosState::Hold
    } else if !frozen {
        QosState::ProbeUp
    } else {
        QosState::Stable
    }
}

/// Lowers the frame rate by `step`, never below the profile's minimum.
fn step_down(fps: u32, step: u32, rate: &VideoRateConfig) -> (res: u32)
    ensures
        res == (if fps > rate.min_fps {
            vstd::math::max(sat_sub(fps as int, step as int), rate.min_fps as int) as u32
        } else {
            fps
        }),
{
    if fps > rate.min_fps {
        let d = if fps > step {
            fps - step
        } else {
            0
        };
        if d > rate.min_fps {
            d
        } else {
            rate.min_fps
        }
    } else {
        fps
    }
}

/// Raises the frame rate by `step` while below the target, never above `limit`.
fn step_up(fps: u32, step: u32, limit: u32, rate: &VideoRateConfig) -> (res: u32)
    ensures
        res == (if fps < rate.target_fps {
            vstd::math::min(fps + step, limit as int) as u32
        } else {
            fps
        }),
{
    if fps < rate.target_fps {
        let u: u64 = fps as u64 + step as u64;
        if u < limit as u64 {
            u as u32
        } else {
            limit
        }
    } else {
        fps
    }
}

/// The frame rate after a congestion or a recovery step, by profile.
pub fn adjust_fps_for_profile(
    fps: u32,
    state: QosState,
    profile: VideoProfileType,
    congested: bool,
    rate: &VideoRateConfig,
) -> (res: u32)
    ensures
        res == adjusted_fps(fps, state, profile, congested, *rate),
{
    match profile {
        VideoProfileType::OfficeClear | VideoProfileType::Custom => {
            if congested {
                step_down(fps, 2, rate)
            } else {
                step_up(fps, 1, rate.target_fps, rate)
            }
        },
        VideoProfileType::MotionSmooth => {
            if congested {
                if state == QosState::Emergency {
                    step_down(fps, 5, rate)
                } else {
                    fps
                }
            } else {
                step_up(fps, 2, rate.max_fps, rate)
            }
        },
        VideoProfileType::TcpStable => {
            if congested {
                step_down(fps, 3, rate)
            } else {
                step_up(fps, 1, rate.target_fps, rate)
            }
        },
    }
}

/// `kbps * percent / 100`, at least 1, as a wide integer.
fn percent_step_of(kbps: u32, percent: u32) -> (res: u64)
    ensures
        res == percent_step(kbps, percent),
        res <= u64::MAX / 2,
{
    assert((kbps as u64) * (percent as u64) <= 0xFFFF_FFFFu64 * 0xFFFF_FFFFu64) by (nonlinear_arith);
    let p: u64 = (kbps as u64) * (percent as u64) / 100;
    if p > 1 {
        p
    } else {
        1
    }
}

/// One controller step for a measured queue delay; the flag tells whether the
/// recovery freeze restarts.
pub fn hq_step(
    c: HqControl,
    rate: &VideoRateConfig,
    profile: VideoProfileType,
    queue_delay: u32,
    frozen: bool,
) -> (res: (HqControl, bool))
    ensures
        res == hq_step_spec(c, *rate, profile, queue_delay, frozen),
{
    if rate.mode == RateControlMode::FixedBitrate {
        if queue_delay > rate.max_queue_ms {
            return (
                HqControl {
                    drop_old_frames: true,
                    need_keyframe: true,
                    state: QosState::Emergency,
                    ..c
                },
                false,
            );
        }
        return (c, false);
    }
    let s = next_state_for(queue_delay, rate, frozen);
    match s {
        QosState::ProbeUp => {
            let good: u64 = c.good_samples as u64 + 1;
            if good >= HQ_GOOD_SAMPLES as u64 && !frozen {
                let inc = percent_step_of(c.kbps, rate.recovery_increase_percent);
                let sum: u64 = c.kbps as u64 + inc;
                let kbps = if sum < rate.max_kbps as u64 {
                    sum as u32
                } else {
                    rate.max_kbps
                };
                let fps = adjust_fps_for_profile(c.fps, s, profile, false, rate);
                (HqControl { state: s, good_samples: 0, kbps, fps, ..c }, false)
            } else {
                (HqControl { state: s, good_samples: good as u32, ..c }, false)
            }
        },
        QosState::Congested | QosState::Emergency => {
            let percent = if s == QosState::Congested {
                rate.congestion_reduce_percent
            } else {
                HQ_EMERGENCY_REDUCE_PERCENT
            };
            let dec = percent_step_of(c.kbps, percent);
            let left: u64 = if (c.kbps as u64) > dec {
                c.kbps as u64 - dec
            } else {
                0
            };
            let kbps = if left > rate.min_kbps as u64 {
                left as u32
            } else {
                rate.min_kbps
            };
            let fps = adjust_fps_for_profile(c.fps, s, profile, true, rate);
            if s == QosState::Congested {
                (HqControl { state: s, good_samples: 0, kbps, fps, ..c }, true)
            } else {
                (
                    HqControl {
                        state: s,
                        good_samples: 0,
                        kbps,
                        fps,
                        drop_old_frames: true,
                        need_keyframe: true,
                    },
                    true,
                )
            }
        },
        _ => (HqControl { state: s, good_samples: 0, ..c }, false),
    }
}

} // verus!
