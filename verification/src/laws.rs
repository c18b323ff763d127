//! Properties of the controllers that hold across calls and states.
use crate::delay::{
    after_network_delay, clamp, lemma_seq_sum_bound, new_avg_delay, seq_sum, UserDelayView, DELAY_THRESHOLD_150MS,
    MAX_FPS, MIN_FPS,
};
use crate::hq::{hq_step_spec, HqControl, HQ_QUEUE_EMERGENCY, HQ_QUEUE_PROBE};
use crate::model::{ratio_step_for, QosView, RatioStep, MAX_PENDING_FRAMES, NEW_USER_CAP_SECS};
use crate::profile::{
    fps_bounds_for_ratio, QosState, RateControlMode, VideoProfileType, VideoRateConfig,
};
use crate::rtt::{lemma_seq_min, seq_min, RttView, MIN_SAMPLES, WINDOW_SAMPLES};
use crate::users::{
    baseline_rtt, max_avg_delay, min_rtt, user_fps, delay_fps, has_user, highest_fps, latest_quality, latest_quality_entry, latest_rate, min_delay_fps,
    min_user_fps, quality_time, user_index, UserView, FPS, INIT_FPS,
};
use vstd::prelude::*;

verus! {

/// An RTT estimate is available exactly when at least `MIN_SAMPLES` samples
/// were seen, and it never exceeds the smallest sample of the window nor
/// falls below the smallest sample ever seen.
pub proof fn law_rtt_estimate(r: RttView)
    requires
        r.wf(),
    ensures
        r.rtt() is Some <==> r.samples.len() >= MIN_SAMPLES,
        r.rtt() matches Some(x) ==> r.min_rtt->0 <= x <= seq_min(r.samples),
{
    if r.samples.len() > 0 {
        lemma_seq_min(r.samples);
    }
}

/// Recording a sample keeps an estimator well formed, keeps at most the
/// window's size of the newest samples, and never raises the historical
/// minimum.
pub proof fn law_rtt_update(r: RttView, delay: u32)
    requires
        r.wf(),
    ensures
        r.after_update(delay).wf(),
        r.after_update(delay).samples.last() == delay,
        r.after_update(delay).min_rtt->0 <= delay,
        r.min_rtt matches Some(m) ==> r.after_update(delay).min_rtt->0 <= m,
{
    let post = r.after_update(delay);
    let s = post.samples;
    lemma_seq_min(s);
    if r.samples.len() > 0 {
        lemma_seq_min(r.samples);
        assert forall|i: int| 0 <= i < s.len() implies post.min_rtt->0 <= #[trigger] s[i] by {
            if i < s.len() - 1 {
                if r.samples.len() >= crate::rtt::WINDOW_SAMPLES {
                    assert(s[i] == r.samples[i + 1]);
                } else {
                    assert(s[i] == r.samples[i]);
                }
            }
        }
    }
    let k = choose|k: int| 0 <= k < s.len() && s[k] == seq_min(s);
    assert(post.min_rtt->0 <= s[k]);
}

/// On a good network (average delay under 150 ms) a user's frame rate never
/// falls below the current rate nor below the quality's minimum (within the
/// users' bounds); from 150 ms on it stays below the quality's minimum
/// (when that is at least 2), and up to 300 ms never above the current rate.
/// The rate is always within `[MIN_FPS, highest_fps]`.
pub proof fn law_fps_follows_delay(
    v: UserDelayView,
    delay: u32,
    fps: u32,
    min_fps: u32,
    normal_fps: u32,
    highest_fps: u32,
)
    requires
        v.wf(),
        MIN_FPS <= highest_fps,
    ensures
        ({
            let (_, f) = after_network_delay(v, delay, fps, min_fps, normal_fps, highest_fps);
            let base = if min_fps > fps {
                min_fps
            } else {
                fps
            };
            &&& MIN_FPS <= f <= highest_fps
            &&& new_avg_delay(v, delay) < DELAY_THRESHOLD_150MS ==> f >= clamp(
                base as int,
                MIN_FPS as int,
                highest_fps as int,
            )
            &&& (DELAY_THRESHOLD_150MS <= new_avg_delay(v, delay) < 300) ==> f <= clamp(
                fps as int,
                MIN_FPS as int,
                highest_fps as int,
            )
            &&& (new_avg_delay(v, delay) >= DELAY_THRESHOLD_150MS && min_fps >= 2) ==> f < min_fps
        }),
{
    let avg = new_avg_delay(v, delay);
    if avg >= DELAY_THRESHOLD_150MS {
        let divided = crate::delay::ceil_div(fps * DELAY_THRESHOLD_150MS, avg as int);
        assert(divided <= fps) by (nonlinear_arith)
            requires
                divided == (fps * 150 + avg - 1) / (avg as int),
                avg >= 150,
                fps >= 0,
        ;
        if avg >= 300 {
            assert((DELAY_THRESHOLD_150MS * min_fps) / (avg as int) <= min_fps / 2) by (
            nonlinear_arith)
                requires
                    avg >= 300,
                    min_fps >= 0,
            ;
        }
    }
}

/// The session frame rate never exceeds the rate chosen for any user (nor
/// `INIT_FPS` within `NEW_USER_CAP_SECS` of a user connecting, nor 2 while a
/// response is late), and always lies within `[MIN_FPS, highest_fps]`. Once
/// `NEW_USER_CAP_SECS` have passed, the time since the connection no longer
/// matters.
pub proof fn law_session_fps_is_users_minimum(s: QosView, new_user_secs: u64)
    ensures
        MIN_FPS <= s.adjusted_fps(new_user_secs) <= highest_fps(s.users),
        forall|i: int|
            0 <= i < s.users.len() ==> s.adjusted_fps(new_user_secs) <= vstd::math::max(
                delay_fps(#[trigger] s.users[i]) as int,
                MIN_FPS as int,
            ),
        new_user_secs < NEW_USER_CAP_SECS ==> s.adjusted_fps(new_user_secs) <= INIT_FPS,
        new_user_secs >= NEW_USER_CAP_SECS ==> s.adjusted_fps(new_user_secs) == s.adjusted_fps(
            NEW_USER_CAP_SECS,
        ),
        crate::users::any_response_delayed(s.users) ==> s.adjusted_fps(new_user_secs) <= 2,
{
    lemma_highest_fps_bounds(s.users);
    assert forall|i: int| 0 <= i < s.users.len() implies min_delay_fps(s.users) matches Some(m)
        && m <= delay_fps(#[trigger] s.users[i]) by {
        lemma_min_delay_fps(s.users, i);
    }
}

/// The smallest delay frame rate is at most each user's.
proof fn lemma_min_delay_fps(s: Seq<UserView>, i: int)
    requires
        0 <= i < s.len(),
    ensures
        min_delay_fps(s) matches Some(m) && m <= delay_fps(s[i]),
    decreases s.len(),
{
    if i < s.len() - 1 {
        lemma_min_delay_fps(s.drop_last(), i);
        assert(s.drop_last()[i] == s[i]);
    }
}

/// The highest allowed frame rate is within `[MIN_FPS, MAX_FPS]`, and at most
/// what each user allows (when that is at least `MIN_FPS`).
pub proof fn lemma_highest_fps_bounds(s: Seq<UserView>)
    ensures
        MIN_FPS <= highest_fps(s) <= MAX_FPS,
        forall|i: int|
            0 <= i < s.len() && crate::users::user_fps(#[trigger] s[i]) >= MIN_FPS ==> highest_fps(s)
                <= crate::users::user_fps(s[i]),
{
    assert forall|i: int|
        0 <= i < s.len() && crate::users::user_fps(#[trigger] s[i]) >= MIN_FPS implies min_user_fps(
        s,
    ) matches Some(m) && m <= crate::users::user_fps(s[i]) by {
        lemma_min_user_fps(s, i);
    }
}

/// The smallest allowed frame rate is at most each user's allowed one.
proof fn lemma_min_user_fps(s: Seq<UserView>, i: int)
    requires
        0 <= i < s.len(),
        crate::users::user_fps(s[i]) >= MIN_FPS,
    ensures
        min_user_fps(s) matches Some(m) && m <= crate::users::user_fps(s[i]),
    decreases s.len(),
{
    if i < s.len() - 1 {
        lemma_min_user_fps(s.drop_last(), i);
        assert(s.drop_last()[i] == s[i]);
    }
}

/// The latest quality is the setting of some user, made no earlier than any
/// other user's.
pub proof fn law_latest_quality(s: Seq<UserView>)
    ensures
        latest_quality_entry(s) matches Some(q) ==> exists|i: int|
            0 <= i < s.len() && (#[trigger] s[i]).quality == Some(q),
        forall|i: int|
            0 <= i < s.len() && (#[trigger] s[i]).quality is Some ==> (latest_quality_entry(
                s,
            ) matches Some(q) && (s[i].quality->0).0 <= q.0),
    decreases s.len(),
{
    if s.len() > 0 {
        let t = s.drop_last();
        law_latest_quality(t);
        assert forall|i: int|
            0 <= i < s.len() && (#[trigger] s[i]).quality is Some implies (latest_quality_entry(
            s,
        ) matches Some(q) && (s[i].quality->0).0 <= q.0) by {
            if i < s.len() - 1 {
                assert(t[i] == s[i]);
            }
        }
        if let Some(q) = latest_quality_entry(s) {
            if latest_quality_entry(t) != Some(q) {
                assert(s[s.len() - 1].quality == Some(q));
            } else {
                let i = choose|i: int| 0 <= i < t.len() && (#[trigger] t[i]).quality == Some(q);
                assert(s[i].quality == Some(q));
            }
        }
    }
}

/// The HQ configuration in force is the one of the user with a rate
/// configuration that set a quality last: no HQ user set one later.
pub proof fn law_latest_rate(s: Seq<UserView>)
    ensures
        latest_rate(s) is Some <==> exists|i: int|
            0 <= i < s.len() && (#[trigger] s[i]).rate_config is Some,
        latest_rate(s) matches Some(t) ==> exists|i: int|
            0 <= i < s.len() && (#[trigger] s[i]).rate_config == Some(t.1) && quality_time(s[i])
                == t.0,
        forall|i: int|
            0 <= i < s.len() && (#[trigger] s[i]).rate_config is Some ==> (latest_rate(
                s,
            ) matches Some(t) && quality_time(s[i]) <= t.0),
    decreases s.len(),
{
    if s.len() > 0 {
        let t = s.drop_last();
        law_latest_rate(t);
        assert forall|i: int|
            0 <= i < s.len() && (#[trigger] s[i]).rate_config is Some implies (latest_rate(
            s,
        ) matches Some(x) && quality_time(s[i]) <= x.0) by {
            if i < s.len() - 1 {
                assert(t[i] == s[i]);
            }
        }
        if exists|i: int| 0 <= i < s.len() && (#[trigger] s[i]).rate_config is Some {
            let i = choose|i: int| 0 <= i < s.len() && (#[trigger] s[i]).rate_config is Some;
            assert(latest_rate(s) is Some);
        }
        if latest_rate(s) is Some {
            if s.last().rate_config is Some {
                assert(s[s.len() - 1].rate_config is Some);
            } else {
                let i = choose|i: int| 0 <= i < t.len() && (#[trigger] t[i]).rate_config is Some;
                assert(s[i] == t[i]);
            }
        }
        if let Some(x) = latest_rate(s) {
            if latest_rate(t) != Some(x) {
                assert(s[s.len() - 1].rate_config == Some(x.1));
            } else {
                let i = choose|i: int|
                    0 <= i < t.len() && (#[trigger] t[i]).rate_config == Some(x.1) && quality_time(
                        t[i],
                    ) == x.0;
                assert(s[i].rate_config == Some(x.1));
            }
        }
    }
}

/// HQ is in force exactly when some user negotiated a profile; a bitrate
/// already set then moves into the configuration's (ordered) bounds, and the
/// frame rate lies within `[MIN_FPS, MAX_FPS]`.
pub proof fn law_refresh(s: QosView)
    requires
        s.wf(),
    ensures
        s.after_refresh().hq_enabled <==> exists|i: int|
            0 <= i < s.users.len() && (#[trigger] s.users[i]).rate_config is Some,
        s.after_refresh().hq_enabled ==> {
            let r = s.after_refresh().hq_rate->0;
            &&& s.after_refresh().hq_rate is Some
            &&& (s.hq_current_kbps > 0 && r.wf() ==> r.min_kbps
                <= s.after_refresh().hq_current_kbps <= r.max_kbps)
            &&& MIN_FPS <= s.after_refresh().fps <= MAX_FPS
        },
        s.after_refresh().wf(),
{
    law_latest_rate(s.users);
    if let Some(t) = latest_rate(s.users) {
        let i = choose|i: int|
            0 <= i < s.users.len() && (#[trigger] s.users[i]).rate_config == Some(t.1)
                && quality_time(s.users[i]) == t.0;
    }
}

/// A profile applied by a connected user later than any other user's quality
/// setting is put in force; a session that had no HQ bitrate yet starts at the
/// profile's target bitrate.
pub proof fn law_profile_takes_effect(
    s: QosView,
    id: i32,
    profile: crate::profile::VideoProfile,
    legacy_ratio: u32,
    time: i64,
)
    requires
        s.wf(),
        has_user(s.users, id),
        forall|i: int|
            0 <= i < s.users.len() && (#[trigger] s.users[i]).id != id ==> quality_time(s.users[i])
                < time,
    ensures
        ({
            let t = s.after_video_profile(id, profile, legacy_ratio, time);
            &&& t.hq_enabled
            &&& t.hq_rate == Some(profile.rate)
            &&& t.hq_profile == Some(profile.profile_type)
            &&& t.hq_target_kbps == profile.rate.target_kbps
            &&& s.hq_current_kbps == 0 ==> t.hq_current_kbps == profile.rate.target_kbps
        }),
{
    let k = user_index(s.users, id);
    let u = s.users[k];
    let nu = UserView {
        rate_config: Some(profile.rate),
        profile_type: Some(profile.profile_type),
        custom_fps: Some(profile.rate.target_fps),
        quality: Some((time, crate::profile::Quality::Custom(legacy_ratio))),
        ..u
    };
    let users = s.users.update(k, nu);
    law_latest_rate(users);
    assert(users[k].rate_config is Some);
    let t = latest_rate(users)->0;
    let j = choose|j: int|
        0 <= j < users.len() && (#[trigger] users[j]).rate_config == Some(t.1) && quality_time(
            users[j],
        ) == t.0;
    assert(quality_time(users[k]) == time);
    if j != k {
        assert(users[j] == s.users[j]);
        assert(s.users[j].id != id) by {
            if s.users[j].id == id {
                assert(s.users[k].id == id);
            }
        }
        assert(quality_time(s.users[j]) < time);
        assert(false);
    }
    lemma_latest_rate_profile(users, k, j);
}

/// The entry chosen by `latest_rate` carries the chosen user's profile.
proof fn lemma_latest_rate_profile(s: Seq<UserView>, k: int, j: int)
    requires
        0 <= k < s.len(),
        s[k].rate_config is Some,
        forall|i: int|
            0 <= i < s.len() && i != k && (#[trigger] s[i]).rate_config is Some ==> quality_time(s[i])
                < quality_time(s[k]),
    ensures
        latest_rate(s) == Some(
            (quality_time(s[k]), s[k].rate_config->0, crate::users::profile_of(s[k])),
        ),
    decreases s.len(),
{
    let t = s.drop_last();
    assert forall|i: int| 0 <= i < t.len() implies #[trigger] t[i] == s[i] by {}
    if k < s.len() - 1 {
        lemma_latest_rate_profile(t, k, j);
    } else {
        law_latest_rate(t);
    }
}

/// The HQ bitrate never leaves the configuration's bounds.
pub proof fn law_hq_kbps_bounded(
    c: HqControl,
    rate: VideoRateConfig,
    profile: VideoProfileType,
    queue_delay: u32,
    frozen: bool,
)
    requires
        rate.wf(),
        rate.min_kbps <= c.kbps <= rate.max_kbps,
    ensures
        rate.min_kbps <= hq_step_spec(c, rate, profile, queue_delay, frozen).0.kbps
            <= rate.max_kbps,
{
}

/// Congestion never raises the bitrate or the frame rate, and lowers the
/// bitrate whenever it is above the minimum; probing upwards never lowers the
/// bitrate; a fixed bitrate never changes bitrate or frame rate; an emergency
/// always drops old frames and asks for a keyframe; the good-sample counter
/// stays below 3.
pub proof fn law_hq_directions(
    c: HqControl,
    rate: VideoRateConfig,
    profile: VideoProfileType,
    queue_delay: u32,
    frozen: bool,
)
    requires
        rate.wf(),
        rate.min_kbps <= c.kbps <= rate.max_kbps,
        c.good_samples < 3,
    ensures
        ({
            let (n, _) = hq_step_spec(c, rate, profile, queue_delay, frozen);
            &&& n.good_samples < 3
            &&& rate.mode == RateControlMode::FixedBitrate ==> n.kbps == c.kbps && n.fps == c.fps
            &&& (rate.mode != RateControlMode::FixedBitrate && (n.state == QosState::Congested
                || n.state == QosState::Emergency)) ==> n.kbps <= c.kbps && n.fps <= c.fps
            &&& (rate.mode != RateControlMode::FixedBitrate && (n.state == QosState::Congested
                || n.state == QosState::Emergency) && c.kbps > rate.min_kbps) ==> n.kbps < c.kbps
            &&& n.state == QosState::ProbeUp ==> n.kbps >= c.kbps
            &&& (n.state == QosState::Hold || n.state == QosState::Stable) ==> n.kbps == c.kbps
                && n.fps == c.fps
            &&& (rate.mode != RateControlMode::FixedBitrate && n.state == QosState::Emergency)
                ==> n.drop_old_frames && n.need_keyframe
            &&& (rate.mode == RateControlMode::FixedBitrate && queue_delay > rate.max_queue_ms) ==> n.state
                == QosState::Emergency && n.drop_old_frames && n.need_keyframe
        }),
{
}

/// The controller state follows the queue delay: beyond 250 ms it is an
/// emergency, up to 60 ms without a running freeze it probes upwards.
pub proof fn law_hq_thresholds(
    c: HqControl,
    rate: VideoRateConfig,
    profile: VideoProfileType,
    queue_delay: u32,
    frozen: bool,
)
    requires
        rate.mode != RateControlMode::FixedBitrate,
    ensures
        queue_delay > HQ_QUEUE_EMERGENCY ==> hq_step_spec(c, rate, profile, queue_delay, frozen).0.state
            == QosState::Emergency,
        queue_delay <= HQ_QUEUE_PROBE && !frozen ==> hq_step_spec(
            c,
            rate,
            profile,
            queue_delay,
            frozen,
        ).0.state == QosState::ProbeUp,
{
}

/// Applies the controller `n` times to the same queue delay.
pub open spec fn hq_steps(
    c: HqControl,
    rate: VideoRateConfig,
    profile: VideoProfileType,
    queue_delay: u32,
    n: nat,
) -> HqControl
    decreases n,
{
    if n == 0 {
        c
    } else {
        hq_steps(hq_step_spec(c, rate, profile, queue_delay, false).0, rate, profile, queue_delay, (n - 1) as nat)
    }
}

/// After a congestion, three good samples (queue delay up to 60 ms, no
/// running freeze) raise a frame rate that is below the target, for the
/// office, custom and TCP profiles; recovery never passes the target.
pub proof fn law_hq_recovery(
    c: HqControl,
    rate: VideoRateConfig,
    profile: VideoProfileType,
    queue_delay: u32,
)
    requires
        rate.mode != RateControlMode::FixedBitrate,
        queue_delay <= HQ_QUEUE_PROBE,
        profile != VideoProfileType::MotionSmooth,
        c.good_samples < 3,
        c.fps < rate.target_fps,
    ensures
        c.fps < hq_steps(c, rate, profile, queue_delay, 3).fps <= rate.target_fps,
{
    let c1 = hq_step_spec(c, rate, profile, queue_delay, false).0;
    let c2 = hq_step_spec(c1, rate, profile, queue_delay, false).0;
    let c3 = hq_step_spec(c2, rate, profile, queue_delay, false).0;
    assert(hq_steps(c3, rate, profile, queue_delay, 0) == c3);
    assert(hq_steps(c2, rate, profile, queue_delay, 1) == c3);
    assert(hq_steps(c1, rate, profile, queue_delay, 2) == c3);
}

/// The ratio rises (on a dynamic screen) or stays while the largest user
/// delay is under 150 ms, and falls from 150 ms on, the more the larger the
/// delay.
pub proof fn law_ratio_step_direction(max_delay: u32, dynamic_screen: bool)
    ensures
        max_delay < 150 && !dynamic_screen ==> ratio_step_for(max_delay, dynamic_screen)
            == RatioStep::Keep,
        max_delay < 150 && dynamic_screen ==> ratio_step_for(max_delay, dynamic_screen)
            != RatioStep::Keep && ratio_step_rank(ratio_step_for(max_delay, dynamic_screen)) > 0,
        max_delay >= 150 ==> ratio_step_rank(ratio_step_for(max_delay, dynamic_screen)) < 0,
        forall|d: u32|
            max_delay <= d ==> #[trigger] ratio_step_rank(ratio_step_for(d, dynamic_screen))
                <= ratio_step_rank(ratio_step_for(max_delay, dynamic_screen)),
{
}

/// The percentage by which a ratio step moves the ratio.
pub open spec fn ratio_step_rank(s: RatioStep) -> int {
    match s {
        RatioStep::Keep => 0,
        RatioStep::Up15 => 15,
        RatioStep::Up10 => 10,
        RatioStep::Up5 => 5,
        RatioStep::Down5 => -5,
        RatioStep::Down10 => -10,
        RatioStep::Down15 => -15,
        RatioStep::Down20 => -20,
    }
}

/// The pending-frame queue never holds more frames than its limit allows,
/// and the newest frame is always kept.
pub proof fn law_pending_bounded(s: QosView, bytes: u32)
    requires
        s.wf(),
    ensures
        s.after_enqueue(bytes).pending.len() <= s.pending_frame_limit(),
        s.after_enqueue(bytes).pending.len() <= MAX_PENDING_FRAMES,
        s.after_enqueue(bytes).pending.last() == (s.next_seq(), bytes),
        s.after_enqueue(bytes).wf(),
{
}

/// The delay used for adaptation never exceeds the plain average of the
/// history (the RTT estimate is only ever subtracted).
pub proof fn law_avg_delay_at_most_average(v: UserDelayView)
    requires
        v.wf(),
        v.delay_history.len() > 0,
    ensures
        v.avg_delay() as int <= seq_sum(v.delay_history) / (v.delay_history.len() as int),
{
    lemma_seq_sum_bound(v.delay_history);
    let n = v.delay_history.len() as int;
    let sum = seq_sum(v.delay_history);
    assert(sum / n <= u32::MAX) by (nonlinear_arith)
        requires
            0 <= sum <= n * (u32::MAX as int),
            n > 0,
    ;
}

/// Outside HQ mode, a delay report whose average is 150 ms or more leaves the
/// reporting user, and so the session, below the minimum frame rate of the
/// most recent quality.
pub proof fn law_slow_network_fps_below_minimum(
    s: QosView,
    id: i32,
    delay: u32,
    new_user_secs: u64,
)
    requires
        s.wf(),
        !s.hq_enabled,
        has_user(s.users, id),
        new_avg_delay(s.user(id).delay, delay) >= DELAY_THRESHOLD_150MS,
    ensures
        ({
            let min_fps = fps_bounds_for_ratio(latest_quality(s.users).ratio_spec()).0;
            let t = s.after_delay_report(id, delay);
            &&& t.user(id).delay.fps matches Some(f) && f < min_fps
            &&& t.adjusted_fps(new_user_secs) < min_fps
        }),
{
    let k = user_index(s.users, id);
    let u = s.users[k];
    assert(u.wf());
    let (min_fps, normal_fps) = fps_bounds_for_ratio(latest_quality(s.users).ratio_spec());
    lemma_highest_fps_bounds(s.users);
    law_fps_follows_delay(u.delay, delay, s.fps, min_fps, normal_fps, highest_fps(s.users));
    let t = s.after_delay_report(id, delay);
    assert(t.users[k].id == id);
    let c = user_index(t.users, id);
    assert(0 <= c < t.users.len() && t.users[c].id == id);
    if c != k {
        assert(t.users[c] == s.users[c]);
        if c < k {
            assert(s.users[c].id != s.users[k].id);
        } else {
            assert(s.users[k].id != s.users[c].id);
        }
    }
    law_session_fps_is_users_minimum(t, new_user_secs);
    assert(t.adjusted_fps(new_user_secs) <= vstd::math::max(
        delay_fps(t.users[k]) as int,
        MIN_FPS as int,
    ));
}

/// The estimator after recording the samples `ds` in order, from a fresh one.
pub open spec fn rtt_after_run(ds: Seq<u32>) -> RttView
    decreases ds.len(),
{
    if ds.len() == 0 {
        RttView::initial()
    } else {
        rtt_after_run(ds.drop_last()).after_update(ds.last())
    }
}

/// The last `WINDOW_SAMPLES` elements of `ds` (all of them when fewer).
pub open spec fn last_window(ds: Seq<u32>) -> Seq<u32> {
    if ds.len() > WINDOW_SAMPLES {
        ds.subrange(ds.len() - WINDOW_SAMPLES, ds.len() as int)
    } else {
        ds
    }
}

/// After a run of samples the window holds the last 60 of them, the
/// historical minimum is the smallest of all of them and the window minimum
/// the smallest of the window, the historical minimum never exceeds the
/// window minimum, the smoothed value lies between the two and exists exactly
/// once 60 samples were seen, and an estimate exists exactly once 10 were.
pub proof fn law_rtt_run(ds: Seq<u32>)
    ensures
        rtt_after_run(ds).wf(),
        rtt_after_run(ds).samples == last_window(ds),
        ds.len() > 0 ==> rtt_after_run(ds).min_rtt == Some(seq_min(ds)),
        ds.len() > 0 ==> rtt_after_run(ds).window_min_rtt == Some(seq_min(last_window(ds))),
        ds.len() > 0 ==> seq_min(ds) <= seq_min(last_window(ds)),
        rtt_after_run(ds).smoothed_rtt matches Some(x) ==> seq_min(ds) <= x <= seq_min(
            last_window(ds),
        ),
        rtt_after_run(ds).smoothed_rtt is Some <==> ds.len() >= WINDOW_SAMPLES,
        rtt_after_run(ds).rtt() is Some <==> ds.len() >= MIN_SAMPLES,
    decreases ds.len(),
{
    if ds.len() > 0 {
        let p = ds.drop_last();
        let x = ds.last();
        law_rtt_run(p);
        let r = rtt_after_run(p);
        law_rtt_update(r, x);
        let t = r.after_update(x);
        if p.len() >= WINDOW_SAMPLES {
            assert(r.samples.drop_first().push(x) =~= ds.subrange(
                ds.len() - WINDOW_SAMPLES,
                ds.len() as int,
            ));
        } else {
            assert(p.push(x) =~= ds);
        }
        assert(t.samples == last_window(ds));
        if p.len() > 0 {
            assert(ds.drop_last() == p);
        }
        law_rtt_estimate(t);
    } else {
        assert(rtt_after_run(ds) == RttView::initial());
        assert(last_window(ds) =~= Seq::<u32>::empty());
    }
}

/// Outside HQ mode the bitrate in use is the stored one. A fresh session
/// stores 0, and no transition other than storing a bitrate changes it,
/// except that a session whose last user leaves starts afresh.
pub proof fn law_bitrate_outside_hq(s: QosView)
    ensures
        !s.hq_enabled ==> s.effective_kbps() == s.bitrate_store,
        QosView::initial().bitrate_store == 0,
        forall|id: i32, abr: bool| #[trigger] s.after_open(id, abr).bitrate_store == s.bitrate_store,
        forall|id: i32|
            #[trigger] s.after_close(id).bitrate_store == (if s.after_close(id).users.len() == 0 {
                0
            } else {
                s.bitrate_store
            }),
        forall|id: i32, p: crate::profile::VideoProfile, r: u32, t: i64|
            #[trigger] s.after_video_profile(id, p, r, t).bitrate_store == s.bitrate_store,
        forall|id: i32, q: i32, t: i64|
            #[trigger] s.after_image_quality(id, q, t).bitrate_store == s.bitrate_store,
        forall|qd: u32, f: u128| #[trigger] s.after_queue_delay(qd, f).bitrate_store == s.bitrate_store,
        forall|pos: int, e: u32, f: u128|
            #[trigger] s.after_delivery(pos, e, f).bitrate_store == s.bitrate_store,
        forall|b: u32| #[trigger] s.after_enqueue(b).bitrate_store == s.bitrate_store,
        forall|secs: u64| #[trigger] s.after_adjust_fps(secs).bitrate_store == s.bitrate_store,
        forall|id: i32, d: u32| #[trigger] s.after_delay_report(id, d).bitrate_store == s.bitrate_store,
        forall|id: i32, e: u128|
            #[trigger] s.after_response_elapsed(id, e).bitrate_store == s.bitrate_store,
        forall|n: Seq<char>, c: usize, ratio_secs: u64, new_user_secs: u64|
            #[trigger] s.after_display_data(n, c, ratio_secs, new_user_secs).0.bitrate_store
                == s.bitrate_store,
{
}

/// A motion profile keeps its frame rate on plain congestion (only the
/// bitrate drops) and gives up frames only in an emergency, where it lowers
/// a rate above the profile's minimum without going below it.
pub proof fn law_motion_profile_keeps_fps_under_congestion(
    c: HqControl,
    rate: VideoRateConfig,
    queue_delay: u32,
    frozen: bool,
)
    requires
        rate.mode != RateControlMode::FixedBitrate,
    ensures
        ({
            let (n, _) = hq_step_spec(c, rate, VideoProfileType::MotionSmooth, queue_delay, frozen);
            &&& n.state == QosState::Congested ==> n.fps == c.fps
            &&& n.state == QosState::Hold || n.state == QosState::Stable ==> n.fps == c.fps
            &&& n.state == QosState::Emergency && c.fps > rate.min_fps ==> rate.min_fps <= n.fps
                < c.fps
            &&& n.state == QosState::Emergency && c.fps <= rate.min_fps ==> n.fps == c.fps
        }),
{
}

/// The largest average delay is the average delay of some user and no user's
/// average delay exceeds it; there is one exactly when users exist.
pub proof fn law_max_avg_delay(s: Seq<UserView>)
    ensures
        max_avg_delay(s) is Some <==> s.len() > 0,
        max_avg_delay(s) matches Some(m) ==> (forall|i: int|
            0 <= i < s.len() ==> (#[trigger] s[i]).delay.avg_delay() <= m),
        max_avg_delay(s) matches Some(m) ==> exists|i: int|
            0 <= i < s.len() && (#[trigger] s[i]).delay.avg_delay() == m,
    decreases s.len(),
{
    if s.len() > 0 {
        let p = s.drop_last();
        law_max_avg_delay(p);
        let m = max_avg_delay(s)->0;
        assert forall|i: int| 0 <= i < s.len() implies (#[trigger] s[i]).delay.avg_delay() <= m by {
            if i < s.len() - 1 {
                assert(p[i] == s[i]);
            }
        }
        if p.len() > 0 && s.last().delay.avg_delay() < max_avg_delay(p)->0 {
            let k = choose|k: int| 0 <= k < p.len() && (#[trigger] p[k]).delay.avg_delay()
                == max_avg_delay(p)->0;
            assert(s[k] == p[k]);
        } else {
            assert(s[s.len() - 1] == s.last());
        }
    }
}

/// A ratio plan is made for the slowest user: its delay is the average delay
/// of some connected user and at least every user's, and its step follows
/// that delay. A plan exists exactly when the bitrate may vary and users are
/// connected.
pub proof fn law_ratio_plan_follows_slowest_user(s: QosView, dynamic_screen: bool)
    ensures
        s.ratio_plan(dynamic_screen) is Some <==> s.in_vbr_state() && s.users.len() > 0,
        s.ratio_plan(dynamic_screen) matches Some(p) ==> {
            &&& forall|i: int|
                0 <= i < s.users.len() ==> (#[trigger] s.users[i]).delay.avg_delay() <= p.max_delay
            &&& exists|i: int|
                0 <= i < s.users.len() && (#[trigger] s.users[i]).delay.avg_delay() == p.max_delay
            &&& p.step == ratio_step_for(p.max_delay, dynamic_screen)
        },
{
    law_max_avg_delay(s.users);
}

/// The smallest RTT estimate is the estimate of some user and at most every
/// user's estimate; there is one exactly when some user has an estimate.
pub proof fn law_min_rtt(s: Seq<UserView>)
    ensures
        min_rtt(s) is Some <==> exists|i: int|
            0 <= i < s.len() && (#[trigger] s[i]).delay.rtt.rtt() is Some,
        min_rtt(s) matches Some(m) ==> (forall|i: int|
            0 <= i < s.len() && (#[trigger] s[i]).delay.rtt.rtt() is Some ==> m
                <= s[i].delay.rtt.rtt()->0),
        min_rtt(s) matches Some(m) ==> exists|i: int|
            0 <= i < s.len() && (#[trigger] s[i]).delay.rtt.rtt() == Some(m),
    decreases s.len(),
{
    if s.len() > 0 {
        let p = s.drop_last();
        law_min_rtt(p);
        assert forall|i: int| 0 <= i < p.len() implies #[trigger] p[i] == s[i] by {}
        if s.last().delay.rtt.rtt() is Some {
            assert(s[s.len() - 1] == s.last());
        }
        if min_rtt(s) is Some {
            let m = min_rtt(s)->0;
            assert forall|i: int|
                0 <= i < s.len() && (#[trigger] s[i]).delay.rtt.rtt() is Some implies m
                    <= s[i].delay.rtt.rtt()->0 by {
                if i < s.len() - 1 {
                    assert(p[i] == s[i]);
                }
            }
            if p.len() > 0 && min_rtt(p) is Some && (s.last().delay.rtt.rtt() is None
                || !(s.last().delay.rtt.rtt()->0 < min_rtt(p)->0)) {
                let k = choose|k: int| 0 <= k < p.len() && (#[trigger] p[k]).delay.rtt.rtt()
                    == Some(min_rtt(p)->0);
                assert(s[k] == p[k]);
            }
        } else {
            assert forall|i: int| 0 <= i < s.len() implies (#[trigger] s[i]).delay.rtt.rtt() is None by {
                if i < s.len() - 1 {
                    assert(p[i] == s[i]);
                }
            }
        }
    }
}

/// The RTT baseline is the smallest estimate among the users (0 without any),
/// so the queue delay of a delivered frame is its wait minus that estimate,
/// at least its wait minus each user's estimate, and never more than the wait.
pub proof fn law_queue_delay_uses_smallest_rtt(s: QosView, elapsed: u32)
    ensures
        (forall|i: int|
            0 <= i < s.users.len() && (#[trigger] s.users[i]).delay.rtt.rtt() is Some
                ==> baseline_rtt(s.users) <= s.users[i].delay.rtt.rtt()->0),
        (forall|i: int|
            0 <= i < s.users.len() && (#[trigger] s.users[i]).delay.rtt.rtt() is Some
                ==> s.delivery_queue_delay(elapsed) >= elapsed - s.users[i].delay.rtt.rtt()->0),
        (forall|i: int|
            0 <= i < s.users.len() ==> (#[trigger] s.users[i]).delay.rtt.rtt() is None)
            ==> s.delivery_queue_delay(elapsed) == elapsed,
        (exists|i: int|
            0 <= i < s.users.len() && (#[trigger] s.users[i]).delay.rtt.rtt() == Some(
                baseline_rtt(s.users),
            )) || baseline_rtt(s.users) == 0,
        s.delivery_queue_delay(elapsed) <= elapsed,
{
    law_min_rtt(s.users);
    if min_rtt(s.users) is None {
        assert forall|i: int| 0 <= i < s.users.len() implies (#[trigger] s.users[i]).delay.rtt.rtt()
            is None by {}
    }
}

/// The highest frame rate all users allow is, clamped to `MAX_FPS`, the
/// allowed rate of some user that allows at least `MIN_FPS`, and no more than
/// any such user allows; without such a user it is `FPS`.
pub proof fn law_highest_fps(s: Seq<UserView>)
    ensures
        forall|i: int|
            0 <= i < s.len() && user_fps(#[trigger] s[i]) >= MIN_FPS ==> highest_fps(s)
                <= vstd::math::min(user_fps(s[i]) as int, MAX_FPS as int),
        (exists|i: int| 0 <= i < s.len() && user_fps(#[trigger] s[i]) >= MIN_FPS) ==> exists|
            i: int,
        |
            0 <= i < s.len() && user_fps(#[trigger] s[i]) >= MIN_FPS && highest_fps(s)
                == vstd::math::min(user_fps(s[i]) as int, MAX_FPS as int),
        (forall|i: int| 0 <= i < s.len() ==> user_fps(#[trigger] s[i]) < MIN_FPS) ==> highest_fps(s)
            == FPS,
{
    lemma_highest_fps_bounds(s);
    lemma_min_user_fps_is_some_user(s);
}

/// The smallest allowed frame rate is that of some user allowing at least
/// `MIN_FPS`, and exists exactly when there is such a user.
proof fn lemma_min_user_fps_is_some_user(s: Seq<UserView>)
    ensures
        min_user_fps(s) is Some <==> exists|i: int|
            0 <= i < s.len() && user_fps(#[trigger] s[i]) >= MIN_FPS,
        min_user_fps(s) matches Some(m) ==> exists|i: int|
            0 <= i < s.len() && user_fps(#[trigger] s[i]) >= MIN_FPS && user_fps(s[i]) == m,
    decreases s.len(),
{
    if s.len() > 0 {
        let p = s.drop_last();
        lemma_min_user_fps_is_some_user(p);
        assert forall|i: int| 0 <= i < p.len() implies #[trigger] p[i] == s[i] by {}
        assert(s[s.len() - 1] == s.last());
        if min_user_fps(p) is Some {
            let k = choose|k: int|
                0 <= k < p.len() && user_fps(#[trigger] p[k]) >= MIN_FPS && user_fps(p[k])
                    == min_user_fps(p)->0;
            assert(s[k] == p[k]);
        }
        if min_user_fps(s) is None {
            assert forall|i: int| 0 <= i < s.len() implies user_fps(#[trigger] s[i]) < MIN_FPS by {
                if i < s.len() - 1 {
                    assert(p[i] == s[i]);
                }
            }
        }
    }
}

/// The bitrate may vary only when every display supports changing the
/// quality, never in HQ mode with a fixed-bitrate configuration, and never
/// outside HQ mode without adaptive bitrate.
pub proof fn law_vbr_state(s: QosView)
    ensures
        s.in_vbr_state() ==> forall|i: int|
            0 <= i < s.displays.len() ==> (#[trigger] s.displays[i]).support_changing_quality,
        (s.hq_enabled && s.hq_rate is Some && s.hq_rate->0.mode == RateControlMode::FixedBitrate)
            ==> !s.in_vbr_state(),
        !s.hq_enabled && !s.abr_config ==> !s.in_vbr_state(),
{
}

} // verus!
