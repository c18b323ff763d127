//! The video QoS controller of a capture session.
use crate::clock::{duration_as_millis, duration_as_secs, instant_elapsed, instant_now};
use crate::delay::{UserDelay, MAX_FPS, MIN_FPS};
use crate::hq::{hq_step, HqControl};
use crate::model::{
    first_frame, has_display, keep_last, pending_bytes, DisplayView, QosView, RatioAction, RatioPlan,
    RatioStep, ADJUST_RATIO_INTERVAL, DEFAULT_MAX_QUEUE_MS, DYNAMIC_SCREEN_THRESHOLD,
    MAX_PENDING_FRAMES, MIN_PENDING_FRAMES, NEW_USER_CAP_SECS, RESPONSE_DELAYED_MS,
};
use crate::profile::{
    convert_quality, fps_bounds, Quality, QosState, RateControlMode, VideoProfile,
    VideoProfileType, VideoRateConfig,
};
use crate::users::{
    any_record, has_user, latest_quality, latest_quality_entry, latest_rate, min_user_fps,
    user_fps, user_index, users_wf, UserView, FPS, INIT_FPS,
};
use std::collections::VecDeque;
use std::time::Instant;
use vstd::prelude::*;

verus! {

broadcast use vstd::std_specs::vecdeque::group_vec_dequeue_axioms;

/// Per-user session data.
struct UserData {
    id: i32,
    auto_adjust_fps: Option<u32>,
    custom_fps: Option<u32>,
    quality: Option<(i64, Quality)>,
    delay: UserDelay,
    record: bool,
    rate_config: Option<VideoRateConfig>,
    profile_type: Option<VideoProfileType>,
}

impl View for UserData {
    type V = UserView;

    closed spec fn view(&self) -> UserView {
        UserView {
            id: self.id,
            auto_adjust_fps: self.auto_adjust_fps,
            custom_fps: self.custom_fps,
            quality: self.quality,
            delay: self.delay@,
            record: self.record,
            rate_config: self.rate_config,
            profile_type: self.profile_type,
        }
    }
}

/// Per-display data.
struct DisplayData {
    name: String,
    send_counter: usize,
    support_changing_quality: bool,
}

impl View for DisplayData {
    type V = DisplayView;

    closed spec fn view(&self) -> DisplayView {
        DisplayView {
            name: self.name@,
            send_counter: self.send_counter,
            support_changing_quality: self.support_changing_quality,
        }
    }
}

/// A frame sent and not yet acknowledged.
struct PendingFrame {
    seq: u64,
    enqueue_instant: Instant,
    bytes: u32,
}

/// The frame-rate and bitrate controller of a capture session.
pub struct VideoQoS {
    fps: u32,
    /// The connected users in connection order, each id once: the order
    /// decides between equal quality times.
    users: Vec<UserData>,
    displays: Vec<DisplayData>,
    bitrate_store: u32,
    adjust_ratio_instant: Instant,
    abr_config: bool,
    new_user_instant: Instant,
    hq_enabled: bool,
    hq_target_kbps: u32,
    hq_current_kbps: u32,
    hq_state: QosState,
    hq_good_samples: u32,
    hq_freeze_start: Option<Instant>,
    hq_freeze_ms: u32,
    hq_rate: Option<VideoRateConfig>,
    hq_profile: Option<VideoProfileType>,
    frame_seq: u64,
    pending_frames: VecDeque<PendingFrame>,
    last_queue_delay_ms: u32,
    need_keyframe: bool,
    drop_old_frames: bool,
    encoder_fallback_reason: String,
    encoder_hardware: bool,
}

/// The abstract users of a list of user data.
closed spec fn users_view(v: Seq<UserData>) -> Seq<UserView> {
    v.map_values(|u: UserData| u@)
}

/// The abstract displays of a list of display data.
closed spec fn displays_view(v: Seq<DisplayData>) -> Seq<DisplayView> {
    v.map_values(|d: DisplayData| d@)
}

/// The abstract pending frames of a frame queue.
closed spec fn pending_view(v: Seq<PendingFrame>) -> Seq<(u64, u32)> {
    v.map_values(|f: PendingFrame| (f.seq, f.bytes))
}

impl View for VideoQoS {
    type V = QosView;

    closed spec fn view(&self) -> QosView {
        QosView {
            fps: self.fps,
            users: users_view(self.users@),
            displays: displays_view(self.displays@),
            bitrate_store: self.bitrate_store,
            abr_config: self.abr_config,
            hq_enabled: self.hq_enabled,
            hq_target_kbps: self.hq_target_kbps,
            hq_current_kbps: self.hq_current_kbps,
            hq_state: self.hq_state,
            hq_good_samples: self.hq_good_samples,
            hq_freeze_ms: if self.hq_freeze_start is Some {
                Some(self.hq_freeze_ms)
            } else {
                None
            },
            hq_rate: self.hq_rate,
            hq_profile: self.hq_profile,
            frame_seq: self.frame_seq,
            pending: pending_view(self.pending_frames@),
            last_queue_delay_ms: self.last_queue_delay_ms,
            need_keyframe: self.need_keyframe,
            drop_old_frames: self.drop_old_frames,
            encoder_fallback_reason: self.encoder_fallback_reason@,
            encoder_hardware: self.encoder_hardware,
        }
    }
}

impl VideoQoS {
    /// When the ratio-adjustment interval started.
    pub closed spec fn ratio_timer_start(&self) -> Instant {
        self.adjust_ratio_instant
    }

    /// When the last user connected (or the session started).
    pub closed spec fn new_user_timer_start(&self) -> Instant {
        self.new_user_instant
    }

    /// When the recovery freeze was last set, while one is set.
    pub closed spec fn freeze_start(&self) -> Option<Instant> {
        self.hq_freeze_start
    }

    /// When each pending frame was enqueued, oldest first.
    pub closed spec fn frame_instants(&self) -> Seq<Instant> {
        self.pending_frames@.map_values(|f: PendingFrame| f.enqueue_instant)
    }

    /// Whether two sessions hold the same clock readings.
    pub open spec fn same_timers(self, other: Self) -> bool {
        &&& self.ratio_timer_start() == other.ratio_timer_start()
        &&& self.new_user_timer_start() == other.new_user_timer_start()
        &&& self.freeze_start() == other.freeze_start()
        &&& self.frame_instants() == other.frame_instants()
    }

    /// A session without users or displays whose timers start at `now`.
    pub fn started_at(now: Instant) -> (res: Self)
        ensures
            res@ == QosView::initial(),
            res@.wf(),
            res.ratio_timer_start() == now,
            res.new_user_timer_start() == now,
            res.freeze_start() is None,
            res.frame_instants() == Seq::<Instant>::empty(),
    {
        let res = VideoQoS {
            fps: FPS,
            users: Vec::new(),
            displays: Vec::new(),
            bitrate_store: 0,
            adjust_ratio_instant: now,
            abr_config: true,
            new_user_instant: now,
            hq_enabled: false,
            hq_target_kbps: 0,
            hq_current_kbps: 0,
            hq_state: QosState::Stable,
            hq_good_samples: 0,
            hq_freeze_start: None,
            hq_freeze_ms: 0,
            hq_rate: None,
            hq_profile: None,
            frame_seq: 0,
            pending_frames: VecDeque::new(),
            last_queue_delay_ms: 0,
            need_keyframe: false,
            drop_old_frames: false,
            encoder_fallback_reason: String::new(),
            encoder_hardware: false,
        };
        assert(res@.users =~= Seq::<UserView>::empty());
        assert(res@.displays =~= Seq::<DisplayView>::empty());
        assert(res@.pending =~= Seq::<(u64, u32)>::empty());
        assert(res.frame_instants() =~= Seq::<Instant>::empty());
        res
    }
}

impl Default for VideoQoS {
    /// A session without users or displays whose timers start now.
    fn default() -> (res: Self)
        ensures
            res@ == QosView::initial(),
            res@.wf(),
    {
        VideoQoS::started_at(instant_now())
    }
}

// Basic accessors.
impl VideoQoS {
    /// The frame rate in use, within `[MIN_FPS, MAX_FPS]` (else `FPS`).
    pub fn fps(&self) -> (res: u32)
        ensures
            res == self@.current_fps(),
    {
        let fps = self.fps;
        if fps >= MIN_FPS && fps <= MAX_FPS {
            fps
        } else {
            FPS
        }
    }

    /// Stores the bitrate chosen by the encoder, used outside HQ mode.
    pub fn store_bitrate(&mut self, bitrate: u32)
        ensures
            final(self)@ == (QosView { bitrate_store: bitrate, ..old(self)@ }),
    {
        self.bitrate_store = bitrate;
    }

    fn effective_kbps(&self) -> (res: u32)
        ensures
            res == self@.effective_kbps(),
    {
        if self.hq_enabled {
            if self.hq_current_kbps > 0 {
                self.hq_current_kbps
            } else {
                self.hq_target_kbps
            }
        } else {
            self.bitrate_store
        }
    }

    /// The bitrate in use (kbps).
    pub fn bitrate(&self) -> (res: u32)
        ensures
            res == self@.effective_kbps(),
    {
        self.effective_kbps()
    }

    /// The bitrate in use (kbps); the same value as `bitrate`.
    pub fn current_kbps(&self) -> (res: u32)
        ensures
            res == self@.effective_kbps(),
    {
        self.effective_kbps()
    }

    /// The HQ controller's current bitrate (kbps), 0 before HQ was set up.
    pub fn hq_current_kbps(&self) -> (res: u32)
        ensures
            res == self@.hq_current_kbps,
    {
        self.hq_current_kbps
    }

    /// The HQ rate configuration in force, if any.
    pub fn hq_rate_config(&self) -> (res: Option<&VideoRateConfig>)
        ensures
            res is Some <==> self@.hq_rate is Some,
            res is Some ==> *res->0 == self@.hq_rate->0,
    {
        self.hq_rate.as_ref()
    }

    /// Whether the HQ path is in force.
    pub fn hq_enabled(&self) -> (res: bool)
        ensures
            res == self@.hq_enabled,
    {
        self.hq_enabled
    }

    /// The HQ controller state.
    pub fn hq_state(&self) -> (res: QosState)
        ensures
            res == self@.hq_state,
    {
        self.hq_state
    }

    /// The queue delay of the last acknowledged frame (ms).
    pub fn last_queue_delay_ms(&self) -> (res: u32)
        ensures
            res == self@.last_queue_delay_ms,
    {
        self.last_queue_delay_ms
    }

    /// Whether a keyframe is needed; the request is cleared.
    pub fn take_need_keyframe(&mut self) -> (res: bool)
        ensures
            res == old(self)@.need_keyframe,
            final(self)@ == (QosView { need_keyframe: false, ..old(self)@ }),
    {
        let v = self.need_keyframe;
        self.need_keyframe = false;
        v
    }

    /// Whether old queued frames should be dropped; the request is cleared.
    pub fn take_drop_old_frames(&mut self) -> (res: bool)
        ensures
            res == old(self)@.drop_old_frames,
            final(self)@ == (QosView { drop_old_frames: false, ..old(self)@ }),
    {
        let v = self.drop_old_frames;
        self.drop_old_frames = false;
        v
    }

    /// Records why the encoder fell back.
    pub fn set_encoder_fallback_reason(&mut self, reason: String)
        ensures
            final(self)@ == (QosView { encoder_fallback_reason: reason@, ..old(self)@ }),
    {
        self.encoder_fallback_reason = reason;
    }

    /// Why the encoder fell back.
    pub fn encoder_fallback_reason(&self) -> (res: &str)
        ensures
            res@ == self@.encoder_fallback_reason,
    {
        self.encoder_fallback_reason.as_str()
    }

    /// Records whether the encoder is a hardware one.
    pub fn set_encoder_hardware(&mut self, hw: bool)
        ensures
            final(self)@ == (QosView { encoder_hardware: hw, ..old(self)@ }),
    {
        self.encoder_hardware = hw;
    }

    /// Whether the encoder is a hardware one.
    pub fn is_encoder_hardware(&self) -> (res: bool)
        ensures
            res == self@.encoder_hardware,
    {
        self.encoder_hardware
    }
}


/// Removing an entry and inserting another at the same place updates the view there.
proof fn lemma_users_replace(old: Seq<UserData>, i: int, u: UserData)
    requires
        0 <= i < old.len(),
    ensures
        users_view(old.remove(i).insert(i, u)) =~= users_view(old).update(i, u@),
        users_view(old.remove(i)) =~= users_view(old).remove(i),
{
    assert(old.remove(i).insert(i, u) =~= old.update(i, u));
}

/// Appending an entry appends its view.
proof fn lemma_users_push(old: Seq<UserData>, u: UserData)
    ensures
        users_view(old.push(u)) =~= users_view(old).push(u@),
{
}

/// Replacing a user by one with the same id keeps the users well formed.
proof fn lemma_users_wf_update(s: Seq<UserView>, i: int, u: UserView)
    requires
        users_wf(s),
        0 <= i < s.len(),
        u.id == s[i].id,
        u.wf(),
    ensures
        users_wf(s.update(i, u)),
{
    let t = s.update(i, u);
    assert forall|a: int, b: int| 0 <= a < b < t.len() implies t[a].id != t[b].id by {
        assert(t[a].id == s[a].id && t[b].id == s[b].id);
    }
    assert forall|a: int| 0 <= a < t.len() implies (#[trigger] t[a]).wf() by {
        if a != i {
            assert(t[a] == s[a]);
        }
    }
}

/// Removing a user keeps the users well formed.
proof fn lemma_users_wf_remove(s: Seq<UserView>, i: int)
    requires
        users_wf(s),
        0 <= i < s.len(),
    ensures
        users_wf(s.remove(i)),
{
    let t = s.remove(i);
    assert forall|a: int, b: int| 0 <= a < b < t.len() implies t[a].id != t[b].id by {
        let a2 = if a < i { a } else { a + 1 };
        let b2 = if b < i { b } else { b + 1 };
        assert(t[a] == s[a2] && t[b] == s[b2]);
    }
    assert forall|a: int| 0 <= a < t.len() implies (#[trigger] t[a]).wf() by {
        let a2 = if a < i { a } else { a + 1 };
        assert(t[a] == s[a2]);
    }
}

impl UserData {
    /// A freshly connected user.
    fn fresh(id: i32) -> (res: UserData)
        ensures
            res@ == UserView::fresh(id),
            res@.wf(),
    {
        UserData {
            id,
            auto_adjust_fps: None,
            custom_fps: None,
            quality: None,
            delay: UserDelay::default(),
            record: false,
            rate_config: None,
            profile_type: None,
        }
    }
}

// User session management.
impl VideoQoS {
    /// The position of the user with this id.
    fn find_user(&self, id: i32) -> (res: Option<usize>)
        requires
            self@.wf(),
        ensures
            match res {
                Some(i) => {
                    &&& i < self.users@.len()
                    &&& has_user(self@.users, id)
                    &&& user_index(self@.users, id) == i
                    &&& self.users@[i as int]@ == self@.user(id)
                },
                None => !has_user(self@.users, id),
            },
    {
        let n = self.users.len();
        let ghost uv = self@.users;
        for i in 0..n
            invariant
                n == self.users@.len(),
                uv == self@.users,
                uv.len() == n,
                users_wf(uv),
                forall|j: int| 0 <= j < i ==> uv[j].id != id,
        {
            assert(uv[i as int] == self.users@[i as int]@);
            if self.users[i].id == id {
                proof {
                    assert(has_user(uv, id));
                    let c = user_index(uv, id);
                    if c != i {
                        assert(uv[c].id == uv[i as int].id);
                        if c < i {
                        } else {
                            assert(uv[i as int].id != uv[c].id);
                        }
                    }
                }
                return Some(i);
            }
        }
        None
    }

    /// Whether a user with this id is connected.
    pub fn has_user(&self, id: i32) -> (res: bool)
        requires
            self@.wf(),
        ensures
            res == has_user(self@.users, id),
    {
        self.find_user(id).is_some()
    }

    /// The number of connected users.
    pub fn user_count(&self) -> (res: usize)
        ensures
            res == self@.users.len(),
    {
        self.users.len()
    }

    /// Registers a newly connected user (a reconnecting one starts afresh),
    /// as `on_connection_open_at` does with the current time.
    pub fn on_connection_open(&mut self, id: i32, abr_config: bool)
        requires
            old(self)@.wf(),
        ensures
            final(self)@ == old(self)@.after_open(id, abr_config),
            final(self)@.wf(),
    {
        let now = instant_now();
        self.on_connection_open_at(id, abr_config, now);
    }

    /// Registers a user connecting at `now` (a reconnecting one starts
    /// afresh); `abr_config` tells whether adaptive bitrate is enabled. The
    /// new-connection timer starts at `now`.
    pub fn on_connection_open_at(&mut self, id: i32, abr_config: bool, now: Instant)
        requires
            old(self)@.wf(),
        ensures
            final(self)@ == old(self)@.after_open(id, abr_config),
            final(self)@.wf(),
            final(self).new_user_timer_start() == now,
            final(self).ratio_timer_start() == old(self).ratio_timer_start(),
            final(self).freeze_start() == old(self).freeze_start(),
            final(self).frame_instants() == old(self).frame_instants(),
    {
        let ghost pre = self@;
        match self.find_user(id) {
            Some(i) => {
                let ghost old_users = self.users@;
                let _ = self.users.remove(i);
                let u = UserData::fresh(id);
                let ghost nu = u;
                self.users.insert(i, u);
                proof {
                    lemma_users_replace(old_users, i as int, nu);
                    lemma_users_wf_update(pre.users, i as int, UserView::fresh(id));
                }
            },
            None => {
                let ghost old_users = self.users@;
                let u = UserData::fresh(id);
                self.users.push(u);
                proof {
                    lemma_users_push(old_users, u);
                    let t = self@.users;
                    assert forall|a: int, b: int| 0 <= a < b < t.len() implies t[a].id != t[b].id by {
                        if b == t.len() - 1 {
                            assert(!(0 <= a < pre.users.len() && pre.users[a].id == id));
                        }
                    }
                    assert forall|a: int| 0 <= a < t.len() implies (#[trigger] t[a]).wf() by {
                        if a < t.len() - 1 {
                            assert(t[a] == pre.users[a]);
                        }
                    }
                }
            },
        }
        self.abr_config = abr_config;
        self.new_user_instant = now;
    }

    /// The most recent HQ user's configuration, as `latest_rate` describes.
    fn latest_rate(&self) -> (res: Option<(i64, VideoRateConfig, VideoProfileType)>)
        requires
            self@.wf(),
        ensures
            res == latest_rate(self@.users),
    {
        let n = self.users.len();
        let ghost uv = self@.users;
        let mut best: Option<(i64, VideoRateConfig, VideoProfileType)> = None;
        for i in 0..n
            invariant
                n == self.users@.len(),
                uv == self@.users,
                uv.len() == n,
                users_wf(uv),
                best == latest_rate(uv.take(i as int)),
        {
            let u = &self.users[i];
            assert(uv[i as int] == u@);
            assert(uv.take(i + 1).drop_last() =~= uv.take(i as int));
            assert(uv.take(i + 1).last() == uv[i as int]);
            if let Some(r) = u.rate_config {
                let t: i64 = match u.quality {
                    Some(q) => q.0,
                    None => 0,
                };
                let p = match u.profile_type {
                    Some(p) => p,
                    None => VideoProfileType::Custom,
                };
                best = match best {
                    Some(b) => if t >= b.0 {
                        Some((t, r, p))
                    } else {
                        Some(b)
                    },
                    None => Some((t, r, p)),
                };
            }
        }
        assert(uv.take(n as int) =~= uv);
        best
    }

    /// The HQ configuration that recomputing would take once a user applied
    /// a video profile at `time`.
    fn latest_rate_with_profile(&self, id: i32, profile: &VideoProfile, legacy_ratio: u32, time: i64) -> (res:
        Option<(i64, VideoRateConfig, VideoProfileType)>)
        requires
            self@.wf(),
        ensures
            res == latest_rate(self@.with_profile(id, *profile, legacy_ratio, time).users),
    {
        let k = self.find_user(id);
        let n = self.users.len();
        let ghost uv = self@.users;
        let ghost target = self@.with_profile(id, *profile, legacy_ratio, time).users;
        proof {
            if let Some(k) = k {
                assert(target == uv.update(k as int, target[k as int]));
            } else {
                assert(target == uv);
            }
        }
        let mut best: Option<(i64, VideoRateConfig, VideoProfileType)> = None;
        for i in 0..n
            invariant
                n == self.users@.len(),
                uv == self@.users,
                uv.len() == n,
                target.len() == n,
                k matches Some(k) ==> k < n && target == uv.update(k as int, target[k as int])
                    && target[k as int].rate_config == Some(profile.rate) && crate::users::quality_time(target[k as int]) == time
                    && crate::users::profile_of(target[k as int]) == profile.profile_type,
                k is None ==> target == uv,
                best == latest_rate(target.take(i as int)),
        {
            assert(target.take(i + 1).drop_last() =~= target.take(i as int));
            assert(target.take(i + 1).last() == target[i as int]);
            let is_k = match k {
                Some(k) => k == i,
                None => false,
            };
            let cand: Option<(i64, VideoRateConfig, VideoProfileType)> = if is_k {
                Some((time, profile.rate, profile.profile_type))
            } else {
                let u = &self.users[i];
                assert(target[i as int] == uv[i as int]);
                assert(uv[i as int] == u@);
                match u.rate_config {
                    Some(r) => {
                        let t: i64 = match u.quality {
                            Some(q) => q.0,
                            None => 0,
                        };
                        let p = match u.profile_type {
                            Some(p) => p,
                            None => VideoProfileType::Custom,
                        };
                        Some((t, r, p))
                    },
                    None => None,
                }
            };
            if let Some(c) = cand {
                best = match best {
                    Some(b) => if c.0 >= b.0 {
                        Some(c)
                    } else {
                        Some(b)
                    },
                    None => Some(c),
                };
            }
        }
        assert(target.take(n as int) =~= target);
        best
    }

    /// The HQ configuration that recomputing would take once a user left.
    fn latest_rate_without(&self, id: i32) -> (res: Option<(i64, VideoRateConfig, VideoProfileType)>)
        requires
            self@.wf(),
        ensures
            res == latest_rate(self@.without_user(id).users),
    {
        let k = self.find_user(id);
        let n = self.users.len();
        let ghost uv = self@.users;
        let ghost target = self@.without_user(id).users;
        let mut best: Option<(i64, VideoRateConfig, VideoProfileType)> = None;
        let mut j: usize = 0;
        for i in 0..n
            invariant
                n == self.users@.len(),
                uv == self@.users,
                uv.len() == n,
                k matches Some(k) ==> k < n && target == uv.remove(k as int)
                    && j == (if i <= k { i } else { (i - 1) as usize }),
                k is None ==> target == uv && j == i,
                j <= target.len(),
                best == latest_rate(target.take(j as int)),
        {
            let skip = match k {
                Some(k) => k == i,
                None => false,
            };
            if !skip {
                let u = &self.users[i];
                assert(target[j as int] == uv[i as int]);
                assert(uv[i as int] == u@);
                assert(target.take(j + 1).drop_last() =~= target.take(j as int));
                assert(target.take(j + 1).last() == target[j as int]);
                if let Some(r) = u.rate_config {
                    let t: i64 = match u.quality {
                        Some(q) => q.0,
                        None => 0,
                    };
                    let p = match u.profile_type {
                        Some(p) => p,
                        None => VideoProfileType::Custom,
                    };
                    best = match best {
                        Some(b) => if t >= b.0 {
                            Some((t, r, p))
                        } else {
                            Some(b)
                        },
                        None => Some((t, r, p)),
                    };
                }
                j = j + 1;
            }
        }
        assert(target.take(j as int) =~= target);
        best
    }

    /// Whether applying a video profile for a user keeps the HQ settings
    /// computable: false exactly when a bitrate is already set and the
    /// configuration that would be taken has its bounds out of order.
    pub fn video_profile_refresh_ok(&self, id: i32, profile: &VideoProfile, legacy_ratio: u32, time: i64) -> (res:
        bool)
        requires
            self@.wf(),
        ensures
            res == self@.with_profile(id, *profile, legacy_ratio, time).refresh_ok(),
    {
        if self.hq_current_kbps == 0 {
            return true;
        }
        match self.latest_rate_with_profile(id, profile, legacy_ratio, time) {
            Some(t) => t.1.min_kbps <= t.1.max_kbps,
            None => true,
        }
    }

    /// Whether closing a user's connection keeps the HQ settings computable:
    /// false exactly when users remain, a bitrate is already set and the
    /// configuration that would be taken has its bounds out of order.
    pub fn connection_close_ok(&self, id: i32) -> (res: bool)
        requires
            self@.wf(),
        ensures
            res == (self@.without_user(id).users.len() == 0 || self@.without_user(id).refresh_ok()),
    {
        let remaining = match self.find_user(id) {
            Some(_) => self.users.len() - 1,
            None => self.users.len(),
        };
        if remaining == 0 || self.hq_current_kbps == 0 {
            return true;
        }
        match self.latest_rate_without(id) {
            Some(t) => t.1.min_kbps <= t.1.max_kbps,
            None => true,
        }
    }

    /// Recomputes the HQ settings from the users.
    fn refresh_hq_from_users(&mut self)
        requires
            old(self)@.wf(),
            old(self)@.refresh_ok(),
        ensures
            final(self)@ == old(self)@.after_refresh(),
            final(self)@.wf(),
            final(self).same_timers(*old(self)),
    {
        match self.latest_rate() {
            Some((_, rate, profile)) => {
                self.hq_enabled = true;
                self.hq_rate = Some(rate);
                self.hq_profile = Some(profile);
                self.hq_target_kbps = rate.target_kbps;
                if self.hq_current_kbps == 0 {
                    self.hq_current_kbps = rate.target_kbps;
                } else if self.hq_current_kbps < rate.min_kbps {
                    self.hq_current_kbps = rate.min_kbps;
                } else if self.hq_current_kbps > rate.max_kbps {
                    self.hq_current_kbps = rate.max_kbps;
                }
                self.fps = if rate.target_fps < MIN_FPS {
                    MIN_FPS
                } else if rate.target_fps > MAX_FPS {
                    MAX_FPS
                } else {
                    rate.target_fps
                };
            },
            None => {
                self.hq_enabled = false;
                self.hq_rate = None;
                self.hq_profile = None;
            },
        }
    }

    /// Forgets a disconnected user, as `on_connection_close_at` does with the
    /// current time.
    pub fn on_connection_close(&mut self, id: i32)
        requires
            old(self)@.wf(),
            old(self)@.without_user(id).users.len() == 0 || old(self)@.without_user(id).refresh_ok(),
        ensures
            final(self)@ == old(self)@.after_close(id),
            final(self)@.wf(),
    {
        let now = instant_now();
        self.on_connection_close_at(id, now);
    }

    /// Forgets a user disconnecting at `now`; without users the session
    /// starts afresh with its timers at `now`, otherwise the HQ settings are
    /// recomputed and the timers kept.
    pub fn on_connection_close_at(&mut self, id: i32, now: Instant)
        requires
            old(self)@.wf(),
            old(self)@.without_user(id).users.len() == 0 || old(self)@.without_user(id).refresh_ok(),
        ensures
            final(self)@ == old(self)@.after_close(id),
            final(self)@.wf(),
            old(self)@.without_user(id).users.len() == 0 ==> {
                &&& final(self).ratio_timer_start() == now
                &&& final(self).new_user_timer_start() == now
                &&& final(self).freeze_start() is None
                &&& final(self).frame_instants() == Seq::<Instant>::empty()
            },
            old(self)@.without_user(id).users.len() > 0 ==> final(self).same_timers(*old(self)),
    {
        let ghost pre = self@;
        if let Some(i) = self.find_user(id) {
            let ghost old_users = self.users@;
            let _ = self.users.remove(i);
            proof {
                lemma_users_replace(old_users, i as int, old_users[i as int]);
                lemma_users_wf_remove(pre.users, i as int);
            }
        }
        if self.users.len() == 0 {
            *self = VideoQoS::started_at(now);
        } else {
            self.refresh_hq_from_users();
        }
    }

    /// Sets a user's custom frame rate, when within `[MIN_FPS, MAX_FPS]`.
    pub fn user_custom_fps(&mut self, id: i32, fps: u32)
        requires
            old(self)@.wf(),
        ensures
            final(self)@ == (if MIN_FPS <= fps <= MAX_FPS {
                old(self)@.with_user(id, UserView { custom_fps: Some(fps), ..old(self)@.user(id) })
            } else {
                old(self)@
            }),
            final(self)@.wf(),
    {
        if fps < MIN_FPS || fps > MAX_FPS {
            return;
        }
        let ghost pre = self@;
        if let Some(i) = self.find_user(id) {
            let ghost old_users = self.users@;
            let mut u = self.users.remove(i);
            u.custom_fps = Some(fps);
            let ghost nu = u;
            self.users.insert(i, u);
            proof {
                lemma_users_replace(old_users, i as int, nu);
                lemma_users_wf_update(pre.users, i as int, nu@);
            }
        }
    }

    /// Sets a user's auto-adjusted frame rate, when within `[MIN_FPS, MAX_FPS]`.
    pub fn user_auto_adjust_fps(&mut self, id: i32, fps: u32)
        requires
            old(self)@.wf(),
        ensures
            final(self)@ == (if MIN_FPS <= fps <= MAX_FPS {
                old(self)@.with_user(
                    id,
                    UserView { auto_adjust_fps: Some(fps), ..old(self)@.user(id) },
                )
            } else {
                old(self)@
            }),
            final(self)@.wf(),
    {
        if fps < MIN_FPS || fps > MAX_FPS {
            return;
        }
        let ghost pre = self@;
        if let Some(i) = self.find_user(id) {
            let ghost old_users = self.users@;
            let mut u = self.users.remove(i);
            u.auto_adjust_fps = Some(fps);
            let ghost nu = u;
            self.users.insert(i, u);
            proof {
                lemma_users_replace(old_users, i as int, nu);
                lemma_users_wf_update(pre.users, i as int, nu@);
            }
        }
    }

    /// Records whether a user records the session.
    pub fn user_record(&mut self, id: i32, v: bool)
        requires
            old(self)@.wf(),
        ensures
            final(self)@ == old(self)@.with_user(id, UserView { record: v, ..old(self)@.user(id) }),
            final(self)@.wf(),
    {
        let ghost pre = self@;
        if let Some(i) = self.find_user(id) {
            let ghost old_users = self.users@;
            let mut u = self.users.remove(i);
            u.record = v;
            let ghost nu = u;
            self.users.insert(i, u);
            proof {
                lemma_users_replace(old_users, i as int, nu);
                lemma_users_wf_update(pre.users, i as int, nu@);
            }
        }
    }

    /// Applies a negotiated HQ video profile for a user at `time` (ms); the
    /// profile's legacy ratio (in hundredths) becomes the user's custom
    /// quality, used when HQ is later turned off. The HQ settings are then
    /// recomputed from all users.
    pub fn user_video_profile(&mut self, id: i32, profile: VideoProfile, legacy_ratio: u32, time: i64)
        requires
            old(self)@.wf(),
            old(self)@.with_profile(id, profile, legacy_ratio, time).refresh_ok(),
        ensures
            final(self)@ == old(self)@.after_video_profile(id, profile, legacy_ratio, time),
            final(self)@.wf(),
    {
        let ghost pre = self@;
        if let Some(i) = self.find_user(id) {
            let ghost old_users = self.users@;
            let mut u = self.users.remove(i);
            u.rate_config = Some(profile.rate);
            u.profile_type = Some(profile.profile_type);
            u.custom_fps = Some(profile.rate.target_fps);
            u.quality = Some((time, Quality::Custom(legacy_ratio)));
            let ghost nu = u;
            self.users.insert(i, u);
            proof {
                lemma_users_replace(old_users, i as int, nu);
                lemma_users_wf_update(pre.users, i as int, nu@);
            }
        }
        self.refresh_hq_from_users();
    }

    /// Records the image quality a user asked for at `time` (ms).
    pub fn user_image_quality(&mut self, id: i32, image_quality: i32, time: i64)
        requires
            old(self)@.wf(),
        ensures
            final(self)@ == old(self)@.after_image_quality(id, image_quality, time),
            final(self)@.wf(),
    {
        let quality = convert_quality(image_quality);
        let ghost pre = self@;
        if let Some(i) = self.find_user(id) {
            let ghost old_users = self.users@;
            let mut u = self.users.remove(i);
            u.quality = Some((time, quality));
            let ghost nu = u;
            self.users.insert(i, u);
            proof {
                lemma_users_replace(old_users, i as int, nu);
                lemma_users_wf_update(pre.users, i as int, nu@);
            }
        }
    }

    /// Whether some user records the session.
    pub fn record(&self) -> (res: bool)
        requires
            self@.wf(),
        ensures
            res == any_record(self@.users),
    {
        let n = self.users.len();
        let ghost uv = self@.users;
        for i in 0..n
            invariant
                n == self.users@.len(),
                uv == self@.users,
                uv.len() == n,
                forall|j: int| 0 <= j < i ==> !uv[j].record,
        {
            assert(uv[i as int] == self.users@[i as int]@);
            if self.users[i].record {
                return true;
            }
        }
        false
    }

    /// The quality the users asked for most recently (balanced if none did).
    pub fn latest_quality(&self) -> (res: Quality)
        requires
            self@.wf(),
        ensures
            res == latest_quality(self@.users),
    {
        let n = self.users.len();
        let ghost uv = self@.users;
        let mut best: Option<(i64, Quality)> = None;
        for i in 0..n
            invariant
                n == self.users@.len(),
                uv == self@.users,
                uv.len() == n,
                best == latest_quality_entry(uv.take(i as int)),
        {
            let u = &self.users[i];
            assert(uv[i as int] == u@);
            assert(uv.take(i + 1).drop_last() =~= uv.take(i as int));
            assert(uv.take(i + 1).last() == uv[i as int]);
            if let Some(q) = u.quality {
                best = match best {
                    Some(b) => if q.0 >= b.0 {
                        Some(q)
                    } else {
                        Some(b)
                    },
                    None => Some(q),
                };
            }
        }
        assert(uv.take(n as int) =~= uv);
        match best {
            Some(q) => q.1,
            None => Quality::Balanced,
        }
    }

    /// The highest frame rate that all users allow.
    fn highest_fps(&self) -> (res: u32)
        requires
            self@.wf(),
        ensures
            res == crate::users::highest_fps(self@.users),
    {
        let n = self.users.len();
        let ghost uv = self@.users;
        let mut best: Option<u32> = None;
        for i in 0..n
            invariant
                n == self.users@.len(),
                uv == self@.users,
                uv.len() == n,
                best == min_user_fps(uv.take(i as int)),
        {
            let u = &self.users[i];
            assert(uv[i as int] == u@);
            assert(uv.take(i + 1).drop_last() =~= uv.take(i as int));
            assert(uv.take(i + 1).last() == uv[i as int]);
            let mut fps = match u.custom_fps {
                Some(f) => f,
                None => FPS,
            };
            if let Some(a) = u.auto_adjust_fps {
                if fps == 0 || a < fps {
                    fps = a;
                }
            }
            assert(fps == user_fps(uv[i as int]));
            if fps >= MIN_FPS {
                best = match best {
                    Some(m) => Some(
                        if fps < m {
                            fps
                        } else {
                            m
                        },
                    ),
                    None => Some(fps),
                };
            }
        }
        assert(uv.take(n as int) =~= uv);
        let fps = match best {
            Some(m) => m,
            None => FPS,
        };
        if fps < MIN_FPS {
            MIN_FPS
        } else if fps > MAX_FPS {
            MAX_FPS
        } else {
            fps
        }
    }
}


/// The total size of pending frames is bounded by their number.
proof fn lemma_pending_bytes_bound(p: Seq<(u64, u32)>)
    ensures
        0 <= pending_bytes(p) <= p.len() * (u32::MAX as int),
    decreases p.len(),
{
    if p.len() > 0 {
        lemma_pending_bytes_bound(p.drop_last());
    }
}

/// The position found by a front-to-back scan is the first matching one.
proof fn lemma_first_frame(p: Seq<(u64, u32)>, seq: u64, i: int)
    requires
        0 <= i < p.len(),
        p[i].0 == seq,
        forall|j: int| 0 <= j < i ==> p[j].0 != seq,
    ensures
        first_frame(p, seq) == Some(i),
{
    let c = choose|c: int|
        0 <= c < p.len() && p[c].0 == seq && forall|j: int| 0 <= j < c ==> p[j].0 != seq;
    assert(0 <= c < p.len() && p[c].0 == seq && forall|j: int| 0 <= j < c ==> p[j].0 != seq);
    if c < i {
        assert(p[c].0 != seq);
    } else if c > i {
        assert(p[i].0 != seq);
    }
}

/// Drops frames from the front until at most `limit` remain.
fn trim_front(q: &mut VecDeque<PendingFrame>, limit: usize)
    ensures
        final(q)@ == (if old(q)@.len() > limit {
            old(q)@.subrange(old(q)@.len() - limit, old(q)@.len() as int)
        } else {
            old(q)@
        }),
{
    let ghost orig = q@;
    while q.len() > limit
        invariant
            q@.len() <= orig.len(),
            orig.len() > limit ==> q@.len() >= limit,
            orig.len() <= limit ==> q@ == orig,
            q@ =~= orig.subrange(orig.len() - q@.len(), orig.len() as int),
        decreases q@.len(),
    {
        let _ = q.pop_front();
    }
}

// Frame accounting and the HQ controller.
impl VideoQoS {
    /// Forgets all pending frames without driving the controller.
    pub fn clear_pending_frames(&mut self)
        requires
            old(self)@.wf(),
        ensures
            final(self)@ == (QosView { pending: Seq::empty(), ..old(self)@ }),
            final(self)@.wf(),
    {
        self.pending_frames.clear();
        assert(self@.pending =~= Seq::<(u64, u32)>::empty());
    }

    fn pending_frame_limit(&self) -> (res: usize)
        ensures
            res == self@.pending_frame_limit(),
    {
        let fps = self.fps();
        let fps64: u64 = if fps > 1 {
            fps as u64
        } else {
            1
        };
        let max_queue_ms: u64 = match self.hq_rate.as_ref() {
            Some(r) => r.max_queue_ms as u64,
            None => DEFAULT_MAX_QUEUE_MS as u64,
        };
        assert(fps64 * max_queue_ms <= 120 * 0xFFFF_FFFFu64) by (nonlinear_arith)
            requires
                fps64 <= 120,
                max_queue_ms <= 0xFFFF_FFFFu64,
        ;
        let n: u64 = fps64 * max_queue_ms / 1000;
        if n < MIN_PENDING_FRAMES as u64 {
            MIN_PENDING_FRAMES
        } else if n > MAX_PENDING_FRAMES as u64 {
            MAX_PENDING_FRAMES
        } else {
            n as usize
        }
    }

    /// Records a frame of `bytes` bytes as sent, as `on_frame_enqueue_at`
    /// does with the current time.
    pub fn on_frame_enqueue(&mut self, bytes: u32) -> (res: u64)
        requires
            old(self)@.wf(),
        ensures
            res == old(self)@.next_seq(),
            final(self)@ == old(self)@.after_enqueue(bytes),
            final(self)@.wf(),
    {
        let now = instant_now();
        self.on_frame_enqueue_at(bytes, now)
    }

    /// Records a frame of `bytes` bytes as sent at `now` and returns its
    /// sequence number; the oldest pending frames beyond the limit are
    /// forgotten, together with their enqueue times.
    pub fn on_frame_enqueue_at(&mut self, bytes: u32, now: Instant) -> (res: u64)
        requires
            old(self)@.wf(),
        ensures
            res == old(self)@.next_seq(),
            final(self)@ == old(self)@.after_enqueue(bytes),
            final(self)@.wf(),
            final(self).frame_instants() == keep_last(
                old(self).frame_instants().push(now),
                old(self)@.pending_frame_limit() as int,
            ),
            final(self).ratio_timer_start() == old(self).ratio_timer_start(),
            final(self).new_user_timer_start() == old(self).new_user_timer_start(),
            final(self).freeze_start() == old(self).freeze_start(),
    {
        let ghost fi = self.frame_instants();
        let ghost pre = self@;
        self.frame_seq = if self.frame_seq == u64::MAX {
            0
        } else {
            self.frame_seq + 1
        };
        let seq = self.frame_seq;
        let ghost before = self.pending_frames@;
        let frame = PendingFrame { seq, enqueue_instant: now, bytes };
        self.pending_frames.push_back(frame);
        let ghost p = pre.pending.push((seq, bytes));
        assert(pending_view(self.pending_frames@) =~= p) by {
            assert(self.pending_frames@ == before.push(frame));
        }
        let limit = self.pending_frame_limit();
        assert(limit == pre.pending_frame_limit());
        let ghost full = self.pending_frames@;
        trim_front(&mut self.pending_frames, limit);
        proof {
            let q = self.pending_frames@;
            assert(full == before.push(frame));
            let fm = full.map_values(|f: PendingFrame| f.enqueue_instant);
            assert(fm =~= fi.push(now));
            if full.len() > limit {
                assert(pending_view(q) =~= p.subrange(p.len() - limit, p.len() as int));
                assert(self.frame_instants() =~= fm.subrange(
                    full.len() - limit,
                    full.len() as int,
                ));
            } else {
                assert(q == full);
            }
        }
        seq
    }

    /// The position of the first pending frame with this sequence number.
    fn find_frame(&self, seq: u64) -> (res: Option<usize>)
        ensures
            match res {
                Some(i) => i < self.pending_frames@.len() && first_frame(self@.pending, seq) == Some(
                    i as int,
                ),
                None => first_frame(self@.pending, seq) is None,
            },
    {
        let n = self.pending_frames.len();
        let ghost p = self@.pending;
        for i in 0..n
            invariant
                n == self.pending_frames@.len(),
                p == self@.pending,
                p.len() == n,
                forall|j: int| 0 <= j < i ==> p[j].0 != seq,
        {
            assert(p[i as int].0 == self.pending_frames@[i as int].seq);
            if self.pending_frames[i].seq == seq {
                proof {
                    lemma_first_frame(p, seq, i as int);
                }
                return Some(i);
            }
        }
        None
    }

    /// The smallest RTT estimate among the users, or 0 without one.
    fn baseline_rtt(&self) -> (res: u32)
        requires
            self@.wf(),
        ensures
            res == crate::users::baseline_rtt(self@.users),
    {
        let n = self.users.len();
        let ghost uv = self@.users;
        let mut best: Option<u32> = None;
        for i in 0..n
            invariant
                n == self.users@.len(),
                uv == self@.users,
                uv.len() == n,
                users_wf(uv),
                best == crate::users::min_rtt(uv.take(i as int)),
        {
            let u = &self.users[i];
            assert(uv[i as int] == u@);
            assert(uv[i as int].wf());
            assert(uv.take(i + 1).drop_last() =~= uv.take(i as int));
            assert(uv.take(i + 1).last() == uv[i as int]);
            if let Some(r) = u.delay.rtt() {
                best = match best {
                    Some(m) => Some(
                        if r < m {
                            r
                        } else {
                            m
                        },
                    ),
                    None => Some(r),
                };
            }
        }
        assert(uv.take(n as int) =~= uv);
        match best {
            Some(r) => r,
            None => 0,
        }
    }

    /// Whole milliseconds since the recovery freeze was set (0 without one),
    /// read from the clock.
    fn freeze_elapsed_ms(&self) -> u128 {
        match &self.hq_freeze_start {
            Some(t) => {
                let d = instant_elapsed(t);
                duration_as_millis(&d)
            },
            None => 0,
        }
    }

    /// One step of the HQ controller for a measured queue delay (ms), taken
    /// at `now`, `freeze_elapsed_ms` ms after the recovery freeze was set.
    /// The freeze still runs while that is under its length; when the step
    /// sets it anew, it starts at `now` and lasts `recovery_freeze_ms`.
    pub fn hq_on_queue_delay_at(&mut self, queue_delay: u32, freeze_elapsed_ms: u128, now: Instant)
        requires
            old(self)@.wf(),
        ensures
            final(self)@ == old(self)@.after_queue_delay(queue_delay, freeze_elapsed_ms),
            final(self)@.wf(),
            final(self).freeze_start() == (if old(self)@.restarts_freeze(
                queue_delay,
                freeze_elapsed_ms,
            ) {
                Some(now)
            } else {
                old(self).freeze_start()
            }),
            final(self).ratio_timer_start() == old(self).ratio_timer_start(),
            final(self).new_user_timer_start() == old(self).new_user_timer_start(),
            final(self).frame_instants() == old(self).frame_instants(),
    {
        let rate = match self.hq_rate {
            Some(r) => r,
            None => {
                return;
            },
        };
        let frozen = if rate.mode == RateControlMode::FixedBitrate {
            false
        } else if self.hq_freeze_start.is_some() {
            freeze_elapsed_ms < self.hq_freeze_ms as u128
        } else {
            false
        };
        let profile = match self.hq_profile {
            Some(p) => p,
            None => VideoProfileType::Custom,
        };
        let control = HqControl {
            kbps: self.hq_current_kbps,
            state: self.hq_state,
            good_samples: self.hq_good_samples,
            fps: self.fps,
            drop_old_frames: self.drop_old_frames,
            need_keyframe: self.need_keyframe,
        };
        let (c, restart) = hq_step(control, &rate, profile, queue_delay, frozen);
        self.hq_current_kbps = c.kbps;
        self.hq_state = c.state;
        self.hq_good_samples = c.good_samples;
        self.fps = c.fps;
        self.drop_old_frames = c.drop_old_frames;
        self.need_keyframe = c.need_keyframe;
        if restart {
            self.hq_freeze_start = Some(now);
            self.hq_freeze_ms = rate.recovery_freeze_ms;
        }
    }

    /// One step of the HQ controller for a measured queue delay (ms), as
    /// `hq_on_queue_delay_at` does with the times read from the clock.
    pub fn hq_on_queue_delay(&mut self, queue_delay: u32)
        requires
            old(self)@.wf(),
        ensures
            exists|freeze_elapsed_ms: u128|
                final(self)@ == #[trigger] old(self)@.after_queue_delay(
                    queue_delay,
                    freeze_elapsed_ms,
                ),
            final(self)@.wf(),
    {
        let freeze_elapsed_ms = self.freeze_elapsed_ms();
        let now = instant_now();
        self.hq_on_queue_delay_at(queue_delay, freeze_elapsed_ms, now);
    }

    /// Ends a running recovery freeze, so that probing upwards may resume.
    pub fn clear_recovery_freeze(&mut self)
        requires
            old(self)@.wf(),
        ensures
            final(self)@ == (QosView { hq_freeze_ms: None, ..old(self)@ }),
            final(self)@.wf(),
            final(self).freeze_start() is None,
            final(self).ratio_timer_start() == old(self).ratio_timer_start(),
            final(self).new_user_timer_start() == old(self).new_user_timer_start(),
            final(self).frame_instants() == old(self).frame_instants(),
    {
        self.hq_freeze_start = None;
    }

    /// Handles the acknowledgement at `now` of the frame with this sequence
    /// number, which waited `elapsed_ms` ms, `freeze_elapsed_ms` ms after the
    /// recovery freeze was set: its queue delay (the wait minus the RTT
    /// baseline) is recorded and, in HQ mode, drives the controller. An
    /// unknown sequence number is ignored.
    pub fn on_frame_delivered_at(
        &mut self,
        seq: u64,
        elapsed_ms: u32,
        freeze_elapsed_ms: u128,
        now: Instant,
    )
        requires
            old(self)@.wf(),
        ensures
            first_frame(old(self)@.pending, seq) is None ==> final(self)@ == old(self)@
                && final(self).same_timers(*old(self)),
            first_frame(old(self)@.pending, seq) matches Some(pos) ==> {
                &&& final(self)@ == old(self)@.after_delivery(pos, elapsed_ms, freeze_elapsed_ms)
                &&& final(self).frame_instants() == old(self).frame_instants().remove(pos)
                &&& final(self).freeze_start() == (if old(self)@.delivery_restarts_freeze(
                    elapsed_ms,
                    freeze_elapsed_ms,
                ) {
                    Some(now)
                } else {
                    old(self).freeze_start()
                })
                &&& final(self).ratio_timer_start() == old(self).ratio_timer_start()
                &&& final(self).new_user_timer_start() == old(self).new_user_timer_start()
            },
            final(self)@.wf(),
    {
        let ghost pre = self@;
        let baseline = self.baseline_rtt();
        if let Some(pos) = self.find_frame(seq) {
            let ghost fi = self.frame_instants();
            if let Some(_frame) = self.pending_frames.remove(pos) {
                assert(pending_view(self.pending_frames@) =~= pre.pending.remove(pos as int));
                assert(self.frame_instants() =~= fi.remove(pos as int));
                let queue_delay = if elapsed_ms > baseline {
                    elapsed_ms - baseline
                } else {
                    0
                };
                assert(queue_delay == pre.delivery_queue_delay(elapsed_ms));
                self.last_queue_delay_ms = queue_delay;
                if self.hq_enabled {
                    self.hq_on_queue_delay_at(queue_delay, freeze_elapsed_ms, now);
                }
            } else {
                assert(false);
            }
        }
    }

    /// Handles the acknowledgement of a frame, as `on_frame_delivered_at`
    /// does with the times read from the clock.
    pub fn on_frame_delivered(&mut self, seq: u64)
        requires
            old(self)@.wf(),
        ensures
            first_frame(old(self)@.pending, seq) is None ==> final(self)@ == old(self)@,
            first_frame(old(self)@.pending, seq) is Some ==> exists|
                elapsed_ms: u32,
                freeze_elapsed_ms: u128,
            |
                final(self)@ == #[trigger] old(self)@.after_delivery(
                    first_frame(old(self)@.pending, seq)->0,
                    elapsed_ms,
                    freeze_elapsed_ms,
                ),
            final(self)@.wf(),
    {
        let elapsed_ms: u32 = match self.find_frame(seq) {
            Some(pos) => {
                let d = instant_elapsed(&self.pending_frames[pos].enqueue_instant);
                #[verifier::truncate] (duration_as_millis(&d) as u32)
            },
            None => 0,
        };
        let freeze_elapsed_ms = self.freeze_elapsed_ms();
        let now = instant_now();
        self.on_frame_delivered_at(seq, elapsed_ms, freeze_elapsed_ms, now);
    }

    /// Handles a frame fetched by the peer as the acknowledgement of the
    /// oldest pending frame.
    pub fn on_video_frame_fetched(&mut self)
        requires
            old(self)@.wf(),
        ensures
            old(self)@.pending.len() == 0 ==> final(self)@ == old(self)@,
            old(self)@.pending.len() > 0 ==> exists|elapsed_ms: u32, freeze_elapsed_ms: u128|
                final(self)@ == #[trigger] old(self)@.after_delivery(
                    0,
                    elapsed_ms,
                    freeze_elapsed_ms,
                ),
            final(self)@.wf(),
    {
        if self.pending_frames.len() > 0 {
            let seq = self.pending_frames[0].seq;
            proof {
                lemma_first_frame(self@.pending, seq, 0);
            }
            self.on_frame_delivered(seq);
        }
    }

    /// The number of frames waiting for acknowledgement.
    pub fn pending_frame_count(&self) -> (res: usize)
        ensures
            res == self@.pending.len(),
    {
        self.pending_frames.len()
    }

    /// Total size of the pending frames (bytes), truncated to 32 bits.
    pub fn pending_video_bytes(&self) -> (res: u32)
        requires
            self@.wf(),
        ensures
            res == pending_bytes(self@.pending) % 0x1_0000_0000,
    {
        let n = self.pending_frames.len();
        let ghost p = self@.pending;
        let mut sum: u64 = 0;
        for i in 0..n
            invariant
                n == self.pending_frames@.len(),
                p == self@.pending,
                p.len() == n,
                n <= MAX_PENDING_FRAMES,
                sum == pending_bytes(p.take(i as int)),
        {
            assert(p[i as int].1 == self.pending_frames@[i as int].bytes);
            assert(p.take(i + 1).drop_last() =~= p.take(i as int));
            proof {
                lemma_pending_bytes_bound(p.take(i as int));
            }
            sum = sum + self.pending_frames[i].bytes as u64;
        }
        assert(p.take(n as int) =~= p);
        (sum % 0x1_0000_0000) as u32
    }
}


// Frame-rate adaptation to network delay.
impl VideoQoS {
    /// The smallest frame rate chosen from delay reports, and whether some
    /// response arrived late.
    fn delay_fps_summary(&self) -> (res: (Option<u32>, bool))
        requires
            self@.wf(),
        ensures
            res.0 == crate::users::min_delay_fps(self@.users),
            res.1 == crate::users::any_response_delayed(self@.users),
    {
        let n = self.users.len();
        let ghost uv = self@.users;
        let mut best: Option<u32> = None;
        let mut delayed = false;
        for i in 0..n
            invariant
                n == self.users@.len(),
                uv == self@.users,
                uv.len() == n,
                best == crate::users::min_delay_fps(uv.take(i as int)),
                delayed == exists|j: int| 0 <= j < i && (#[trigger] uv[j]).delay.response_delayed,
        {
            let u = &self.users[i];
            assert(uv[i as int] == u@);
            assert(uv.take(i + 1).drop_last() =~= uv.take(i as int));
            assert(uv.take(i + 1).last() == uv[i as int]);
            let f = match u.delay.fps() {
                Some(f) => f,
                None => INIT_FPS,
            };
            best = match best {
                Some(m) => Some(
                    if f < m {
                        f
                    } else {
                        m
                    },
                ),
                None => Some(f),
            };
            if u.delay.response_delayed() {
                delayed = true;
            }
        }
        assert(uv.take(n as int) =~= uv);
        (best, delayed)
    }

    /// Whole seconds since the last user connected, read from the clock.
    fn new_user_elapsed_secs(&self) -> u64 {
        let d = instant_elapsed(&self.new_user_instant);
        duration_as_secs(&d)
    }

    /// Re-derives the frame rate from the users' delay reports, the last user
    /// having connected `new_user_secs` whole seconds ago.
    fn adjust_fps_at(&mut self, new_user_secs: u64)
        requires
            old(self)@.wf(),
        ensures
            final(self)@ == old(self)@.after_adjust_fps(new_user_secs),
            final(self)@.wf(),
            final(self).same_timers(*old(self)),
    {
        let highest = self.highest_fps();
        let (best, delayed) = self.delay_fps_summary();
        let mut fps = match best {
            Some(f) => f,
            None => INIT_FPS,
        };
        if delayed {
            if fps > MIN_FPS + 1 {
                fps = MIN_FPS + 1;
            }
        }
        if new_user_secs < NEW_USER_CAP_SECS {
            if fps > INIT_FPS {
                fps = INIT_FPS;
            }
        }
        self.fps = if fps < MIN_FPS {
            MIN_FPS
        } else if fps > highest {
            highest
        } else {
            fps
        };
    }

    /// Handles a network delay report (ms) of a user, the last user having
    /// connected `new_user_secs` whole seconds ago. Outside HQ mode the
    /// user's frame rate and then the session's are re-derived; returns
    /// whether this was the user's first report, after which the bitrate
    /// ratio should be adjusted.
    pub fn user_network_delay_at(&mut self, id: i32, delay: u32, new_user_secs: u64) -> (res: bool)
        requires
            old(self)@.wf(),
        ensures
            res == (!old(self)@.hq_enabled && has_user(old(self)@.users, id) && old(self)@.user(
                id,
            ).delay.fps is None),
            old(self)@.hq_enabled ==> final(self)@ == old(self)@.after_delay_report(id, delay),
            !old(self)@.hq_enabled ==> final(self)@ == old(self)@.after_delay_report(
                id,
                delay,
            ).after_adjust_fps(new_user_secs),
            final(self)@.wf(),
    {
        let ghost pre = self@;
        if self.hq_enabled {
            if let Some(i) = self.find_user(id) {
                let ghost old_users = self.users@;
                let mut u = self.users.remove(i);
                let d = if delay < 10 {
                    10
                } else {
                    delay
                };
                u.delay.add_delay(d);
                let ghost nu = u;
                self.users.insert(i, u);
                proof {
                    lemma_users_replace(old_users, i as int, nu);
                    lemma_users_wf_update(pre.users, i as int, nu@);
                }
            }
            return false;
        }
        let highest = self.highest_fps();
        let target_ratio = self.latest_quality().ratio();
        let (min_fps, normal_fps) = fps_bounds(target_ratio);
        let mut adjust = false;
        if let Some(i) = self.find_user(id) {
            let ghost old_users = self.users@;
            let mut u = self.users.remove(i);
            adjust = u.delay.fps().is_none();
            let _ = u.delay.on_network_delay(delay, self.fps, min_fps, normal_fps, highest);
            let ghost nu = u;
            self.users.insert(i, u);
            proof {
                lemma_users_replace(old_users, i as int, nu);
                lemma_users_wf_update(pre.users, i as int, nu@);
            }
        }
        assert(self@ == pre.after_delay_report(id, delay));
        self.adjust_fps_at(new_user_secs);
        adjust
    }

    /// Handles a network delay report (ms) of a user, as
    /// `user_network_delay_at` does with the seconds since the last user
    /// connected read from the clock.
    pub fn user_network_delay(&mut self, id: i32, delay: u32) -> (res: bool)
        requires
            old(self)@.wf(),
        ensures
            res == (!old(self)@.hq_enabled && has_user(old(self)@.users, id) && old(self)@.user(
                id,
            ).delay.fps is None),
            old(self)@.hq_enabled ==> final(self)@ == old(self)@.after_delay_report(id, delay),
            !old(self)@.hq_enabled ==> exists|new_user_secs: u64|
                final(self)@ == #[trigger] old(self)@.after_delay_report(
                    id,
                    delay,
                ).after_adjust_fps(new_user_secs),
            final(self)@.wf(),
    {
        let new_user_secs = self.new_user_elapsed_secs();
        self.user_network_delay_at(id, delay, new_user_secs)
    }

    /// Handles the time (ms) a user took to answer a delay probe, the last
    /// user having connected `new_user_secs` whole seconds ago; a late answer
    /// (over 2 s) counts as a delay sample and re-derives the frame rate.
    pub fn user_delay_response_elapsed_at(&mut self, id: i32, elapsed: u128, new_user_secs: u64)
        requires
            old(self)@.wf(),
        ensures
            !(has_user(old(self)@.users, id) && elapsed > RESPONSE_DELAYED_MS) ==> final(self)@
                == old(self)@.after_response_elapsed(id, elapsed),
            has_user(old(self)@.users, id) && elapsed > RESPONSE_DELAYED_MS ==> final(self)@
                == old(self)@.after_response_elapsed(id, elapsed).after_adjust_fps(new_user_secs),
            final(self)@.wf(),
    {
        let ghost pre = self@;
        if let Some(i) = self.find_user(id) {
            let ghost old_users = self.users@;
            let mut u = self.users.remove(i);
            let delayed = elapsed > RESPONSE_DELAYED_MS;
            u.delay.set_response_delayed(delayed);
            if delayed {
                u.delay.add_delay(#[verifier::truncate] (elapsed as u32));
            }
            let ghost nu = u;
            self.users.insert(i, u);
            proof {
                lemma_users_replace(old_users, i as int, nu);
                lemma_users_wf_update(pre.users, i as int, nu@);
            }
            assert(self@ == pre.after_response_elapsed(id, elapsed));
            if delayed {
                self.adjust_fps_at(new_user_secs);
            }
        }
    }

    /// Handles the time (ms) a user took to answer a delay probe, as
    /// `user_delay_response_elapsed_at` does with the seconds since the last
    /// user connected read from the clock.
    pub fn user_delay_response_elapsed(&mut self, id: i32, elapsed: u128)
        requires
            old(self)@.wf(),
        ensures
            !(has_user(old(self)@.users, id) && elapsed > RESPONSE_DELAYED_MS) ==> final(self)@
                == old(self)@.after_response_elapsed(id, elapsed),
            has_user(old(self)@.users, id) && elapsed > RESPONSE_DELAYED_MS ==> exists|
                new_user_secs: u64,
            |
                final(self)@ == #[trigger] old(self)@.after_response_elapsed(
                    id,
                    elapsed,
                ).after_adjust_fps(new_user_secs),
            final(self)@.wf(),
    {
        let new_user_secs = self.new_user_elapsed_secs();
        self.user_delay_response_elapsed_at(id, elapsed, new_user_secs);
    }
}


/// Removing a display and inserting another at the same place updates the view there.
proof fn lemma_displays_replace(old: Seq<DisplayData>, i: int, d: DisplayData)
    requires
        0 <= i < old.len(),
    ensures
        displays_view(old.remove(i).insert(i, d)) =~= displays_view(old).update(i, d@),
        displays_view(old.remove(i)) =~= displays_view(old).remove(i),
{
    assert(old.remove(i).insert(i, d) =~= old.update(i, d));
}

/// Display names stay distinct when one display is replaced by a namesake.
proof fn lemma_display_names_update(s: Seq<DisplayView>, i: int, d: DisplayView)
    requires
        forall|a: int, b: int| 0 <= a < b < s.len() ==> s[a].name != s[b].name,
        0 <= i < s.len(),
        d.name == s[i].name,
    ensures
        forall|a: int, b: int|
            0 <= a < b < s.update(i, d).len() ==> s.update(i, d)[a].name != s.update(i, d)[b].name,
{
    let t = s.update(i, d);
    assert forall|a: int, b: int| 0 <= a < b < t.len() implies t[a].name != t[b].name by {
        assert(t[a].name == s[a].name && t[b].name == s[b].name);
    }
}

// Displays and the bitrate ratio.
impl VideoQoS {
    /// The position of the display with this name.
    fn find_display(&self, name: &String) -> (res: Option<usize>)
        requires
            self@.wf(),
        ensures
            match res {
                Some(i) => {
                    &&& i < self.displays@.len()
                    &&& has_display(self@.displays, name@)
                    &&& crate::model::display_index(self@.displays, name@) == i
                    &&& self.displays@[i as int]@ == self@.display(name@)
                },
                None => !has_display(self@.displays, name@),
            },
    {
        let n = self.displays.len();
        let ghost dv = self@.displays;
        for i in 0..n
            invariant
                n == self.displays@.len(),
                dv == self@.displays,
                dv.len() == n,
                forall|a: int, b: int| 0 <= a < b < dv.len() ==> dv[a].name != dv[b].name,
                forall|j: int| 0 <= j < i ==> dv[j].name != name@,
        {
            assert(dv[i as int] == self.displays@[i as int]@);
            if self.displays[i].name == *name {
                proof {
                    assert(has_display(dv, name@));
                    let c = crate::model::display_index(dv, name@);
                    if c > i {
                        assert(dv[i as int].name != dv[c].name);
                    }
                }
                return Some(i);
            }
        }
        None
    }

    /// Adds a display (an existing one of that name starts afresh).
    pub fn new_display(&mut self, video_service_name: String)
        requires
            old(self)@.wf(),
        ensures
            final(self)@ == (QosView {
                displays: if has_display(old(self)@.displays, video_service_name@) {
                    old(self)@.displays.update(
                        crate::model::display_index(old(self)@.displays, video_service_name@),
                        DisplayView::fresh(video_service_name@),
                    )
                } else {
                    old(self)@.displays.push(DisplayView::fresh(video_service_name@))
                },
                ..old(self)@
            }),
            final(self)@.wf(),
    {
        let ghost pre = self@;
        let ghost name = video_service_name@;
        match self.find_display(&video_service_name) {
            Some(i) => {
                let ghost old_d = self.displays@;
                let _ = self.displays.remove(i);
                let d = DisplayData {
                    name: video_service_name,
                    send_counter: 0,
                    support_changing_quality: false,
                };
                let ghost nd = d;
                self.displays.insert(i, d);
                proof {
                    lemma_displays_replace(old_d, i as int, nd);
                    lemma_display_names_update(pre.displays, i as int, nd@);
                }
            },
            None => {
                let ghost old_d = self.displays@;
                let d = DisplayData {
                    name: video_service_name,
                    send_counter: 0,
                    support_changing_quality: false,
                };
                let ghost nd = d;
                self.displays.push(d);
                proof {
                    assert(displays_view(old_d.push(nd)) =~= displays_view(old_d).push(nd@));
                    let t = self@.displays;
                    assert forall|a: int, b: int| 0 <= a < b < t.len() implies t[a].name
                        != t[b].name by {
                        if b == t.len() - 1 {
                            assert(!(0 <= a < pre.displays.len() && pre.displays[a].name == name));
                        }
                    }
                }
            },
        }
    }

    /// Removes a display.
    pub fn remove_display(&mut self, video_service_name: &str)
        requires
            old(self)@.wf(),
        ensures
            final(self)@ == (QosView {
                displays: if has_display(old(self)@.displays, video_service_name@) {
                    old(self)@.displays.remove(
                        crate::model::display_index(old(self)@.displays, video_service_name@),
                    )
                } else {
                    old(self)@.displays
                },
                ..old(self)@
            }),
            final(self)@.wf(),
    {
        let ghost pre = self@;
        let key = video_service_name.to_owned();
        if let Some(i) = self.find_display(&key) {
            let ghost old_d = self.displays@;
            let _ = self.displays.remove(i);
            proof {
                lemma_displays_replace(old_d, i as int, old_d[i as int]);
                let t = self@.displays;
                let s0 = pre.displays;
                assert forall|a: int, b: int| 0 <= a < b < t.len() implies t[a].name
                    != t[b].name by {
                    let a2 = if a < i { a } else { a + 1 };
                    let b2 = if b < i { b } else { b + 1 };
                    assert(t[a] == s0[a2] && t[b] == s0[b2]);
                }
            }
        }
    }

    /// Records whether a display supports changing the quality.
    pub fn set_support_changing_quality(&mut self, video_service_name: &str, support: bool)
        requires
            old(self)@.wf(),
        ensures
            final(self)@ == old(self)@.with_display(
                video_service_name@,
                DisplayView {
                    support_changing_quality: support,
                    ..old(self)@.display(video_service_name@)
                },
            ),
            final(self)@.wf(),
    {
        let ghost pre = self@;
        let key = video_service_name.to_owned();
        if let Some(i) = self.find_display(&key) {
            let ghost old_d = self.displays@;
            let mut d = self.displays.remove(i);
            d.support_changing_quality = support;
            let ghost nd = d;
            self.displays.insert(i, d);
            proof {
                lemma_displays_replace(old_d, i as int, nd);
                lemma_display_names_update(pre.displays, i as int, nd@);
            }
        }
    }

    /// Whether every display supports changing the quality.
    fn all_support_changing_quality(&self) -> (res: bool)
        ensures
            res == crate::model::all_support_changing_quality(self@.displays),
    {
        let n = self.displays.len();
        let ghost dv = self@.displays;
        for i in 0..n
            invariant
                n == self.displays@.len(),
                dv == self@.displays,
                dv.len() == n,
                forall|j: int| 0 <= j < i ==> dv[j].support_changing_quality,
        {
            assert(dv[i as int] == self.displays@[i as int]@);
            if !self.displays[i].support_changing_quality {
                return false;
            }
        }
        true
    }

    /// Whether the bitrate may vary (see `QosView::in_vbr_state`).
    pub fn in_vbr_state(&self) -> (res: bool)
        ensures
            res == self@.in_vbr_state(),
    {
        if self.hq_enabled {
            if let Some(rate) = &self.hq_rate {
                return rate.mode != RateControlMode::FixedBitrate
                    && self.all_support_changing_quality();
            }
        }
        self.abr_config && self.all_support_changing_quality()
    }

    /// Whether some display encoded often enough to count as dynamic.
    fn any_dynamic_screen(&self) -> (res: bool)
        ensures
            res == crate::model::any_dynamic_screen(self@.displays),
    {
        let n = self.displays.len();
        let ghost dv = self@.displays;
        for i in 0..n
            invariant
                n == self.displays@.len(),
                dv == self@.displays,
                dv.len() == n,
                forall|j: int|
                    0 <= j < i ==> dv[j].send_counter < ADJUST_RATIO_INTERVAL
                        * DYNAMIC_SCREEN_THRESHOLD,
        {
            assert(dv[i as int] == self.displays@[i as int]@);
            if self.displays[i].send_counter >= ADJUST_RATIO_INTERVAL * DYNAMIC_SCREEN_THRESHOLD {
                return true;
            }
        }
        false
    }

    /// Resets the encode counters of all displays.
    fn reset_send_counters(&mut self)
        requires
            old(self)@.wf(),
        ensures
            final(self)@ == (QosView {
                displays: crate::model::reset_counters(old(self)@.displays),
                ..old(self)@
            }),
            final(self)@.wf(),
            final(self).same_timers(*old(self)),
    {
        let n = self.displays.len();
        let ghost dv = self@.displays;
        let mut v: Vec<DisplayData> = Vec::new();
        for i in 0..n
            invariant
                n == self.displays@.len(),
                dv == self@.displays,
                dv.len() == n,
                displays_view(v@) =~= crate::model::reset_counters(dv).take(i as int),
        {
            let d = &self.displays[i];
            assert(dv[i as int] == d@);
            let nd = DisplayData {
                name: d.name.clone(),
                send_counter: 0,
                support_changing_quality: d.support_changing_quality,
            };
            let ghost old_v = v@;
            v.push(nd);
            assert(displays_view(v@) =~= displays_view(old_v).push(nd@));
        }
        self.displays = v;
        assert(crate::model::reset_counters(dv).take(n as int) =~= crate::model::reset_counters(dv));
    }

    /// Starts the interval between two ratio adjustments anew at `now`.
    pub fn restart_ratio_timer_from(&mut self, now: Instant)
        ensures
            final(self)@ == old(self)@,
            final(self).ratio_timer_start() == now,
            final(self).new_user_timer_start() == old(self).new_user_timer_start(),
            final(self).freeze_start() == old(self).freeze_start(),
            final(self).frame_instants() == old(self).frame_instants(),
    {
        self.adjust_ratio_instant = now;
    }

    /// The largest average delay among the users.
    fn max_avg_delay(&self) -> (res: Option<u32>)
        requires
            self@.wf(),
        ensures
            res == crate::users::max_avg_delay(self@.users),
    {
        let n = self.users.len();
        let ghost uv = self@.users;
        let mut best: Option<u32> = None;
        for i in 0..n
            invariant
                n == self.users@.len(),
                uv == self@.users,
                uv.len() == n,
                users_wf(uv),
                best == crate::users::max_avg_delay(uv.take(i as int)),
        {
            let u = &self.users[i];
            assert(uv[i as int] == u@);
            assert(uv[i as int].wf());
            assert(uv.take(i + 1).drop_last() =~= uv.take(i as int));
            assert(uv.take(i + 1).last() == uv[i as int]);
            let d = u.delay.avg_delay();
            best = match best {
                Some(m) => Some(
                    if d >= m {
                        d
                    } else {
                        m
                    },
                ),
                None => Some(d),
            };
        }
        assert(uv.take(n as int) =~= uv);
        best
    }

    /// The inputs of a bitrate ratio adjustment: none unless the bitrate may
    /// vary and users are connected.
    pub fn ratio_plan(&self, dynamic_screen: bool) -> (res: Option<RatioPlan>)
        requires
            self@.wf(),
        ensures
            res == self@.ratio_plan(dynamic_screen),
    {
        if !self.in_vbr_state() {
            return None;
        }
        let max_delay = match self.max_avg_delay() {
            Some(d) => d,
            None => {
                return None;
            },
        };
        let step = if max_delay < 50 {
            if dynamic_screen {
                RatioStep::Up15
            } else {
                RatioStep::Keep
            }
        } else if max_delay < 100 {
            if dynamic_screen {
                RatioStep::Up10
            } else {
                RatioStep::Keep
            }
        } else if max_delay < 150 {
            if dynamic_screen {
                RatioStep::Up5
            } else {
                RatioStep::Keep
            }
        } else if max_delay < 200 {
            RatioStep::Down5
        } else if max_delay < 300 {
            RatioStep::Down10
        } else if max_delay < 500 {
            RatioStep::Down15
        } else {
            RatioStep::Down20
        };
        Some(
            RatioPlan {
                max_delay,
                step,
                target_quality: self.latest_quality(),
                bitrate: self.bitrate(),
            },
        )
    }

    /// Whole seconds since the ratio-adjustment interval started, read from
    /// the clock.
    fn ratio_timer_elapsed_secs(&self) -> u64 {
        let d = instant_elapsed(&self.adjust_ratio_instant);
        duration_as_secs(&d)
    }

    /// Adds encodes to a display's counter.
    fn add_send_counter(&mut self, video_service_name: &str, send_counter: usize)
        requires
            old(self)@.wf(),
        ensures
            final(self)@ == old(self)@.after_send_counter(video_service_name@, send_counter),
            final(self)@.wf(),
            final(self).same_timers(*old(self)),
    {
        let ghost pre = self@;
        let key = video_service_name.to_owned();
        if let Some(i) = self.find_display(&key) {
            let ghost old_d = self.displays@;
            let mut d = self.displays.remove(i);
            d.send_counter = if d.send_counter > usize::MAX - send_counter {
                send_counter - (usize::MAX - d.send_counter) - 1
            } else {
                d.send_counter + send_counter
            };
            let ghost nd = d;
            self.displays.insert(i, d);
            proof {
                lemma_displays_replace(old_d, i as int, nd);
                lemma_display_names_update(pre.displays, i as int, nd@);
            }
        }
    }

    /// Handles `send_counter` more encodes of a display at `now`, `ratio_secs`
    /// whole seconds after the ratio-adjustment interval started and
    /// `new_user_secs` after the last user connected. In HQ mode the counters
    /// and the interval start anew once the interval is over; outside it the
    /// frame rate is re-derived and the result tells what to do with the
    /// ratio (the caller restarts the interval after adjusting it).
    pub fn update_display_data_at(
        &mut self,
        video_service_name: &str,
        send_counter: usize,
        ratio_secs: u64,
        new_user_secs: u64,
        now: Instant,
    ) -> (res: RatioAction)
        requires
            old(self)@.wf(),
        ensures
            (final(self)@, res) == old(self)@.after_display_data(
                video_service_name@,
                send_counter,
                ratio_secs,
                new_user_secs,
            ),
            final(self)@.wf(),
            final(self).ratio_timer_start() == (if old(self)@.hq_enabled && ratio_secs
                >= ADJUST_RATIO_INTERVAL {
                now
            } else {
                old(self).ratio_timer_start()
            }),
            final(self).new_user_timer_start() == old(self).new_user_timer_start(),
            final(self).freeze_start() == old(self).freeze_start(),
            final(self).frame_instants() == old(self).frame_instants(),
    {
        let ghost pre = self@;
        let ghost name = video_service_name@;
        let due = ratio_secs >= ADJUST_RATIO_INTERVAL as u64;
        self.add_send_counter(video_service_name, send_counter);
        if self.hq_enabled {
            if due {
                self.reset_send_counters();
                self.restart_ratio_timer_from(now);
            }
            return RatioAction::Keep;
        }
        self.adjust_fps_at(new_user_secs);
        if self.in_vbr_state() {
            if due {
                let dynamic_screen = self.any_dynamic_screen();
                self.reset_send_counters();
                RatioAction::Adjust(dynamic_screen)
            } else {
                RatioAction::Keep
            }
        } else {
            RatioAction::UseLatestQuality
        }
    }

    /// Handles `send_counter` more encodes of a display, as
    /// `update_display_data_at` does with both elapsed times read from the
    /// clock.
    pub fn update_display_data(&mut self, video_service_name: &str, send_counter: usize) -> (res:
        RatioAction)
        requires
            old(self)@.wf(),
        ensures
            exists|ratio_secs: u64, new_user_secs: u64|
                (final(self)@, res) == #[trigger] old(self)@.after_display_data(
                    video_service_name@,
                    send_counter,
                    ratio_secs,
                    new_user_secs,
                ),
            final(self)@.wf(),
    {
        let ratio_secs = self.ratio_timer_elapsed_secs();
        let new_user_secs = self.new_user_elapsed_secs();
        let now = instant_now();
        self.update_display_data_at(video_service_name, send_counter, ratio_secs, new_user_secs, now)
    }
}

} // verus!
