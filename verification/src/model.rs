//! The abstract state of a video QoS session and its transitions.
use crate::delay::{after_network_delay, clamp, MAX_FPS, MIN_FPS};
use crate::hq::{hq_step_spec, HqControl, sat_sub};
use crate::profile::{
    fps_bounds_for_ratio, quality_of, Quality, QosState, RateControlMode, VideoProfile,
    VideoProfileType, VideoRateConfig,
};
use crate::users::{
    any_response_delayed, baseline_rtt, has_user, highest_fps, latest_quality, latest_rate,
    max_avg_delay, min_delay_fps, user_index, users_wf, UserView, FPS, INIT_FPS,
};
use vstd::prelude::*;

verus! {

/// Upper bound of the pending-frame queue.
pub const MAX_PENDING_FRAMES: usize = 120;

/// Lower bound of the pending-frame limit.
pub const MIN_PENDING_FRAMES: usize = 30;

/// Queue budget (ms) used for the pending-frame limit when no rate is set.
pub const DEFAULT_MAX_QUEUE_MS: u32 = 150;

/// Seconds between two ratio adjustments.
pub const ADJUST_RATIO_INTERVAL: usize = 3;

/// Encodes per second above which a screen counts as dynamic.
pub const DYNAMIC_SCREEN_THRESHOLD: usize = 2;

/// Seconds after a user connects during which the frame rate stays at most
/// `INIT_FPS`.
pub const NEW_USER_CAP_SECS: u64 = 1;

/// Delay response time (ms) above which a response counts as late.
pub const RESPONSE_DELAYED_MS: u128 = 2000;

/// The abstract state of one display.
pub struct DisplayView {
    pub name: Seq<char>,
    /// Encodes since the last ratio adjustment.
    pub send_counter: usize,
    pub support_changing_quality: bool,
}

impl DisplayView {
    /// A newly added display.
    pub open spec fn fresh(name: Seq<char>) -> DisplayView {
        DisplayView { name, send_counter: 0, support_changing_quality: false }
    }
}

/// Whether a display with this name exists.
pub open spec fn has_display(s: Seq<DisplayView>, name: Seq<char>) -> bool {
    exists|i: int| 0 <= i < s.len() && s[i].name == name
}

/// The position of the display with this name (meaningful when `has_display`).
pub open spec fn display_index(s: Seq<DisplayView>, name: Seq<char>) -> int {
    choose|i: int| 0 <= i < s.len() && s[i].name == name
}

/// Whether every display supports changing the quality.
pub open spec fn all_support_changing_quality(s: Seq<DisplayView>) -> bool {
    forall|i: int| 0 <= i < s.len() ==> (#[trigger] s[i]).support_changing_quality
}

/// The displays with their encode counters reset.
pub open spec fn reset_counters(s: Seq<DisplayView>) -> Seq<DisplayView> {
    s.map_values(|d: DisplayView| DisplayView { send_counter: 0, ..d })
}

/// Whether some display encoded often enough to count as dynamic.
pub open spec fn any_dynamic_screen(s: Seq<DisplayView>) -> bool {
    exists|i: int|
        0 <= i < s.len() && (#[trigger] s[i]).send_counter >= ADJUST_RATIO_INTERVAL
            * DYNAMIC_SCREEN_THRESHOLD
}

/// The position of the first pending frame with this sequence number.
pub open spec fn first_frame(p: Seq<(u64, u32)>, seq: u64) -> Option<int> {
    if exists|i: int| 0 <= i < p.len() && p[i].0 == seq {
        Some(
            choose|i: int|
                0 <= i < p.len() && p[i].0 == seq && forall|j: int| 0 <= j < i ==> p[j].0 != seq,
        )
    } else {
        None
    }
}

/// Total size of the pending frames.
pub open spec fn pending_bytes(p: Seq<(u64, u32)>) -> int
    decreases p.len(),
{
    if p.len() == 0 {
        0
    } else {
        pending_bytes(p.drop_last()) + p.last().1
    }
}

/// The last `n` elements of `s` (all of them when fewer).
pub open spec fn keep_last<A>(s: Seq<A>, n: int) -> Seq<A> {
    if s.len() > n {
        s.subrange(s.len() - n, s.len() as int)
    } else {
        s
    }
}

/// What the caller does with the bitrate ratio after a display update.
#[derive(Clone, Copy, Debug, PartialEq, Eq, Structural)]
pub enum RatioAction {
    /// Leave the ratio as it is.
    Keep,
    /// Adjust the ratio to the network; the flag tells whether the screen is dynamic.
    Adjust(bool),
    /// Set the ratio to the one of the latest quality.
    UseLatestQuality,
}

/// How the bitrate ratio moves for the largest user delay.
#[derive(Clone, Copy, Debug, PartialEq, Eq, Structural)]
pub enum RatioStep {
    Keep,
    Up15,
    Up10,
    Up5,
    Down5,
    Down10,
    Down15,
    Down20,
}

/// The ratio step for a delay: on a good network the ratio only rises for a
/// dynamic screen, on a bad one it falls the more the larger the delay.
pub open spec fn ratio_step_for(max_delay: u32, dynamic_screen: bool) -> RatioStep {
    if max_delay < 50 {
        if dynamic_screen {
            RatioStep::Up15
        } else {
            RatioStep::Keep
        }
    } else if max_delay < 100 {
        if dynamic_screen {
            RatioStep::Up10
        } else {
            RatioStep::Keep
        }
    } else if max_delay < 150 {
        if dynamic_screen {
            RatioStep::Up5
        } else {
            RatioStep::Keep
        }
    } else if max_delay < 200 {
        RatioStep::Down5
    } else if max_delay < 300 {
        RatioStep::Down10
    } else if max_delay < 500 {
        RatioStep::Down15
    } else {
        RatioStep::Down20
    }
}

/// The inputs of a ratio adjustment.
#[derive(Clone, Copy, Debug, PartialEq, Eq, Structural)]
pub struct RatioPlan {
    /// The largest average delay among the users.
    pub max_delay: u32,
    /// How the ratio moves.
    pub step: RatioStep,
    /// The quality the users asked for most recently.
    pub target_quality: Quality,
    /// The current bitrate (kbps).
    pub bitrate: u32,
}

/// The abstract state of a video QoS session.
pub struct QosView {
    pub fps: u32,
    pub users: Seq<UserView>,
    pub displays: Seq<DisplayView>,
    pub bitrate_store: u32,
    pub abr_config: bool,
    pub hq_enabled: bool,
    pub hq_target_kbps: u32,
    pub hq_current_kbps: u32,
    pub hq_state: QosState,
    pub hq_good_samples: u32,
    /// The length (ms) the recovery freeze was last set for, while one is set
    /// (it may have expired since).
    pub hq_freeze_ms: Option<u32>,
    pub hq_rate: Option<VideoRateConfig>,
    pub hq_profile: Option<VideoProfileType>,
    pub frame_seq: u64,
    /// Sequence number and size of the frames sent but not yet acknowledged.
    pub pending: Seq<(u64, u32)>,
    pub last_queue_delay_ms: u32,
    pub need_keyframe: bool,
    pub drop_old_frames: bool,
    pub encoder_fallback_reason: Seq<char>,
    pub encoder_hardware: bool,
}

impl QosView {
    /// Well-formedness of a session.
    pub open spec fn wf(self) -> bool {
        &&& users_wf(self.users)
        &&& forall|i: int, j: int|
            0 <= i < j < self.displays.len() ==> self.displays[i].name != self.displays[j].name
        &&& self.hq_good_samples < 3
        &&& self.pending.len() <= MAX_PENDING_FRAMES
    }

    /// A session without users or displays.
    pub open spec fn initial() -> QosView {
        QosView {
            fps: FPS,
            users: Seq::empty(),
            displays: Seq::empty(),
            bitrate_store: 0,
            abr_config: true,
            hq_enabled: false,
            hq_target_kbps: 0,
            hq_current_kbps: 0,
            hq_state: QosState::Stable,
            hq_good_samples: 0,
            hq_freeze_ms: None,
            hq_rate: None,
            hq_profile: None,
            frame_seq: 0,
            pending: Seq::empty(),
            last_queue_delay_ms: 0,
            need_keyframe: false,
            drop_old_frames: false,
            encoder_fallback_reason: Seq::empty(),
            encoder_hardware: false,
        }
    }

    /// The frame rate in use: the stored one when within bounds, else `FPS`.
    pub open spec fn current_fps(self) -> u32 {
        if MIN_FPS <= self.fps <= MAX_FPS {
            self.fps
        } else {
            FPS
        }
    }

    /// The bitrate in use: the HQ current (else target) bitrate in HQ mode,
    /// the stored bitrate otherwise.
    pub open spec fn effective_kbps(self) -> u32 {
        if self.hq_enabled {
            if self.hq_current_kbps > 0 {
                self.hq_current_kbps
            } else {
                self.hq_target_kbps
            }
        } else {
            self.bitrate_store
        }
    }

    /// Whether the bitrate may vary: every display supports changing quality,
    /// and the HQ rate is not fixed (in HQ mode) or ABR is enabled (otherwise).
    pub open spec fn in_vbr_state(self) -> bool {
        if self.hq_enabled && self.hq_rate is Some {
            self.hq_rate->0.mode != RateControlMode::FixedBitrate && all_support_changing_quality(
                self.displays,
            )
        } else {
            self.abr_config && all_support_changing_quality(self.displays)
        }
    }

    /// How many frames may wait for acknowledgement: the frames that the
    /// queue budget holds at the current rate, within `[30, 120]`.
    pub open spec fn pending_frame_limit(self) -> int {
        let max_queue_ms: int = match self.hq_rate {
            Some(r) => r.max_queue_ms as int,
            None => DEFAULT_MAX_QUEUE_MS as int,
        };
        clamp(
            self.current_fps() * max_queue_ms / 1000,
            MIN_PENDING_FRAMES as int,
            MAX_PENDING_FRAMES as int,
        )
    }

    /// The sequence number of the next enqueued frame.
    pub open spec fn next_seq(self) -> u64 {
        if self.frame_seq == u64::MAX {
            0
        } else {
            (self.frame_seq + 1) as u64
        }
    }

    /// The session after enqueueing a frame of `bytes` bytes: the oldest
    /// frames beyond the limit are forgotten.
    pub open spec fn after_enqueue(self, bytes: u32) -> QosView {
        let seq = self.next_seq();
        let p = self.pending.push((seq, bytes));
        let limit = self.pending_frame_limit();
        QosView {
            frame_seq: seq,
            pending: if p.len() > limit {
                p.subrange(p.len() - limit, p.len() as int)
            } else {
                p
            },
            ..self
        }
    }

    /// The controller part of the session.
    pub open spec fn control(self) -> HqControl {
        HqControl {
            kbps: self.hq_current_kbps,
            state: self.hq_state,
            good_samples: self.hq_good_samples,
            fps: self.fps,
            drop_old_frames: self.drop_old_frames,
            need_keyframe: self.need_keyframe,
        }
    }

    /// Whether the recovery freeze still runs `freeze_elapsed_ms` ms after it
    /// was set. It never holds in fixed-bitrate mode, which does not probe.
    pub open spec fn freeze_running(self, freeze_elapsed_ms: u128) -> bool {
        match self.hq_rate {
            Some(rate) => match self.hq_freeze_ms {
                Some(ms) => rate.mode != RateControlMode::FixedBitrate && freeze_elapsed_ms < ms,
                None => false,
            },
            None => false,
        }
    }

    /// The profile the controller steps with.
    pub open spec fn step_profile(self) -> VideoProfileType {
        match self.hq_profile {
            Some(p) => p,
            None => VideoProfileType::Custom,
        }
    }

    /// Whether a controller step for a queue delay sets the recovery freeze
    /// anew, `freeze_elapsed_ms` ms after it was last set.
    pub open spec fn restarts_freeze(self, queue_delay: u32, freeze_elapsed_ms: u128) -> bool {
        match self.hq_rate {
            None => false,
            Some(rate) => hq_step_spec(
                self.control(),
                rate,
                self.step_profile(),
                queue_delay,
                self.freeze_running(freeze_elapsed_ms),
            ).1,
        }
    }

    /// The session after a controller step for a queue delay, taken
    /// `freeze_elapsed_ms` ms after the recovery freeze was last set.
    pub open spec fn after_queue_delay(self, queue_delay: u32, freeze_elapsed_ms: u128) -> QosView {
        match self.hq_rate {
            None => self,
            Some(rate) => {
                let (c, restart) = hq_step_spec(
                    self.control(),
                    rate,
                    self.step_profile(),
                    queue_delay,
                    self.freeze_running(freeze_elapsed_ms),
                );
                QosView {
                    hq_current_kbps: c.kbps,
                    hq_state: c.state,
                    hq_good_samples: c.good_samples,
                    fps: c.fps,
                    drop_old_frames: c.drop_old_frames,
                    need_keyframe: c.need_keyframe,
                    hq_freeze_ms: if restart {
                        Some(rate.recovery_freeze_ms)
                    } else {
                        self.hq_freeze_ms
                    },
                    ..self
                }
            },
        }
    }

    /// The queue delay of a frame that waited `elapsed` ms: the wait beyond
    /// the users' RTT baseline.
    pub open spec fn delivery_queue_delay(self, elapsed: u32) -> u32 {
        sat_sub(elapsed as int, baseline_rtt(self.users) as int) as u32
    }

    /// Whether the acknowledgement of a frame that waited `elapsed` ms sets
    /// the recovery freeze anew.
    pub open spec fn delivery_restarts_freeze(self, elapsed: u32, freeze_elapsed_ms: u128) -> bool {
        self.hq_enabled && self.restarts_freeze(self.delivery_queue_delay(elapsed), freeze_elapsed_ms)
    }

    /// The session after the acknowledgement of the pending frame at `pos`,
    /// which waited `elapsed` ms, `freeze_elapsed_ms` ms after the recovery
    /// freeze was last set.
    pub open spec fn after_delivery(self, pos: int, elapsed: u32, freeze_elapsed_ms: u128) -> QosView {
        let queue_delay = self.delivery_queue_delay(elapsed);
        let s = QosView {
            pending: self.pending.remove(pos),
            last_queue_delay_ms: queue_delay,
            ..self
        };
        if self.hq_enabled {
            s.after_queue_delay(queue_delay, freeze_elapsed_ms)
        } else {
            s
        }
    }

    /// The session with the HQ settings recomputed from the users: the most
    /// recent HQ user's configuration is used; without one HQ is off.
    pub open spec fn after_refresh(self) -> QosView {
        match latest_rate(self.users) {
            Some((_, rate, profile)) => QosView {
                hq_enabled: true,
                hq_rate: Some(rate),
                hq_profile: Some(profile),
                hq_target_kbps: rate.target_kbps,
                hq_current_kbps: if self.hq_current_kbps == 0 {
                    rate.target_kbps
                } else {
                    clamp(
                        self.hq_current_kbps as int,
                        rate.min_kbps as int,
                        rate.max_kbps as int,
                    ) as u32
                },
                fps: clamp(rate.target_fps as int, MIN_FPS as int, MAX_FPS as int) as u32,
                ..self
            },
            None => QosView { hq_enabled: false, hq_rate: None, hq_profile: None, ..self },
        }
    }

    /// The users after changing the one with this id, if connected.
    pub open spec fn with_user(self, id: i32, u: UserView) -> QosView {
        if has_user(self.users, id) {
            QosView { users: self.users.update(user_index(self.users, id), u), ..self }
        } else {
            self
        }
    }

    /// The connected user with this id.
    pub open spec fn user(self, id: i32) -> UserView {
        self.users[user_index(self.users, id)]
    }

    /// The session after a user connects (a reconnecting user starts afresh);
    /// its settings are kept.
    pub open spec fn after_open(self, id: i32, abr_config: bool) -> QosView {
        let users = if has_user(self.users, id) {
            self.users.update(user_index(self.users, id), UserView::fresh(id))
        } else {
            self.users.push(UserView::fresh(id))
        };
        QosView {
            users,
            abr_config,
            ..self
        }
    }

    /// The session after a user disconnects: without users it starts afresh,
    /// otherwise the HQ settings are recomputed.
    pub open spec fn after_close(self, id: i32) -> QosView {
        let s = self.without_user(id);
        if s.users.len() == 0 {
            QosView::initial()
        } else {
            s.after_refresh()
        }
    }

    /// The session after a user applies a video profile at `time`; the
    /// profile's ratio (in hundredths) is kept as the user's custom quality.
    pub open spec fn after_video_profile(
        self,
        id: i32,
        profile: VideoProfile,
        legacy_ratio: u32,
        time: i64,
    ) -> QosView {
        self.with_profile(id, profile, legacy_ratio, time).after_refresh()
    }

    /// The users after a user applies a video profile, before the HQ settings
    /// are recomputed.
    pub open spec fn with_profile(
        self,
        id: i32,
        profile: VideoProfile,
        legacy_ratio: u32,
        time: i64,
    ) -> QosView {
        let u = self.user(id);
        self.with_user(
            id,
            UserView {
                rate_config: Some(profile.rate),
                profile_type: Some(profile.profile_type),
                custom_fps: Some(profile.rate.target_fps),
                quality: Some((time, Quality::Custom(legacy_ratio))),
                ..u
            },
        )
    }

    /// The users after one disconnects, before anything else changes.
    pub open spec fn without_user(self, id: i32) -> QosView {
        if has_user(self.users, id) {
            QosView { users: self.users.remove(user_index(self.users, id)), ..self }
        } else {
            self
        }
    }

    /// Whether recomputing the HQ settings can clamp the current bitrate: it
    /// can unless a bitrate is already set and the configuration taken has
    /// its bounds out of order (clamping into such bounds is refused).
    pub open spec fn refresh_ok(self) -> bool {
        self.hq_current_kbps == 0 || (latest_rate(self.users) matches Some(t) ==> t.1.wf())
    }

    /// The session after a user asks for an image quality at `time`.
    pub open spec fn after_image_quality(self, id: i32, image_quality: i32, time: i64) -> QosView {
        let u = self.user(id);
        self.with_user(id, UserView { quality: Some((time, quality_of(image_quality))), ..u })
    }

    /// The frame rate derived from the users' delay reports: their smallest
    /// rate (`INIT_FPS` without users), at most 2 when a response is late and
    /// at most `INIT_FPS` when the last user connected `new_user_secs` whole
    /// seconds ago, under `NEW_USER_CAP_SECS`, within the bounds all users
    /// allow.
    pub open spec fn adjusted_fps(self, new_user_secs: u64) -> u32 {
        let fps0 = match min_delay_fps(self.users) {
            Some(f) => f,
            None => INIT_FPS,
        };
        let fps1 = if any_response_delayed(self.users) && fps0 > MIN_FPS + 1 {
            2u32
        } else {
            fps0
        };
        let fps2 = if new_user_secs < NEW_USER_CAP_SECS && fps1 > INIT_FPS {
            INIT_FPS
        } else {
            fps1
        };
        clamp(fps2 as int, MIN_FPS as int, highest_fps(self.users) as int) as u32
    }

    /// The session with its frame rate re-derived from the users.
    pub open spec fn after_adjust_fps(self, new_user_secs: u64) -> QosView {
        QosView { fps: self.adjusted_fps(new_user_secs), ..self }
    }

    /// The session after a network delay report of a user, before the frame
    /// rate is re-derived from all users. In HQ mode only the sample is kept.
    pub open spec fn after_delay_report(self, id: i32, delay: u32) -> QosView {
        let u = self.user(id);
        if self.hq_enabled {
            let d = if delay < 10 {
                10
            } else {
                delay
            };
            self.with_user(id, UserView { delay: u.delay.after_delay(d), ..u })
        } else {
            let (min_fps, normal_fps) = fps_bounds_for_ratio(
                latest_quality(self.users).ratio_spec(),
            );
            let (d, _) = after_network_delay(
                u.delay,
                delay,
                self.fps,
                min_fps,
                normal_fps,
                highest_fps(self.users),
            );
            self.with_user(id, UserView { delay: d, ..u })
        }
    }

    /// The session after a delay response of a user that took `elapsed` ms:
    /// a late response (over 2 s) counts as a delay sample.
    pub open spec fn after_response_elapsed(self, id: i32, elapsed: u128) -> QosView {
        let u = self.user(id);
        let delayed = elapsed > RESPONSE_DELAYED_MS;
        let d1 = crate::delay::UserDelayView { response_delayed: delayed, ..u.delay };
        let d2 = if delayed {
            d1.after_delay(elapsed as u32)
        } else {
            d1
        };
        self.with_user(id, UserView { delay: d2, ..u })
    }

    /// The displays after changing the one with this name, if any.
    pub open spec fn with_display(self, name: Seq<char>, d: DisplayView) -> QosView {
        if has_display(self.displays, name) {
            QosView { displays: self.displays.update(display_index(self.displays, name), d), ..self }
        } else {
            self
        }
    }

    /// The display with this name.
    pub open spec fn display(self, name: Seq<char>) -> DisplayView {
        self.displays[display_index(self.displays, name)]
    }

    /// The ratio adjustment inputs, when the ratio may vary and users exist.
    pub open spec fn ratio_plan(self, dynamic_screen: bool) -> Option<RatioPlan> {
        if !self.in_vbr_state() {
            None
        } else {
            match max_avg_delay(self.users) {
                None => None,
                Some(max_delay) => Some(
                    RatioPlan {
                        max_delay,
                        step: ratio_step_for(max_delay, dynamic_screen),
                        target_quality: latest_quality(self.users),
                        bitrate: self.effective_kbps(),
                    },
                ),
            }
        }
    }

    /// The session after a display reports `send_counter` more encodes (the
    /// counter wraps around on overflow).
    pub open spec fn after_send_counter(self, name: Seq<char>, send_counter: usize) -> QosView {
        let d = self.display(name);
        self.with_display(
            name,
            DisplayView {
                send_counter: (if d.send_counter + send_counter > usize::MAX {
                    d.send_counter + send_counter - usize::MAX - 1
                } else {
                    d.send_counter + send_counter
                }) as usize,
                ..d
            },
        )
    }

    /// The session and the ratio action after a display reports
    /// `send_counter` more encodes, `ratio_secs` whole seconds after the ratio
    /// interval started and `new_user_secs` after the last user connected.
    /// The interval is over once `ratio_secs` reaches `ADJUST_RATIO_INTERVAL`.
    pub open spec fn after_display_data(
        self,
        name: Seq<char>,
        send_counter: usize,
        ratio_secs: u64,
        new_user_secs: u64,
    ) -> (QosView, RatioAction) {
        let due = ratio_secs >= ADJUST_RATIO_INTERVAL;
        let s = self.after_send_counter(name, send_counter);
        if s.hq_enabled {
            if due {
                (
                    QosView { displays: reset_counters(s.displays), ..s },
                    RatioAction::Keep,
                )
            } else {
                (s, RatioAction::Keep)
            }
        } else {
            let s2 = s.after_adjust_fps(new_user_secs);
            if s2.in_vbr_state() {
                if due {
                    (
                        QosView { displays: reset_counters(s2.displays), ..s2 },
                        RatioAction::Adjust(any_dynamic_screen(s2.displays)),
                    )
                } else {
                    (s2, RatioAction::Keep)
                }
            } else {
                (s2, RatioAction::UseLatestQuality)
            }
        }
    }
}

} // verus!
