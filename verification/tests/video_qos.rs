use std::time::Instant;
use video_qos::model::{RatioAction, RatioStep};
use video_qos::profile::{
    QosState, Quality, RateControlMode, VideoProfile, VideoProfileType, VideoRateConfig,
};
use video_qos::qos::VideoQoS;

/// An office profile at 1080p.
fn office_clear_1080p() -> VideoProfile {
    VideoProfile {
        profile_type: VideoProfileType::OfficeClear,
        rate: VideoRateConfig {
            mode: RateControlMode::Auto,
            target_kbps: 16_000,
            min_kbps: 4_000,
            max_kbps: 20_000,
            target_fps: 30,
            min_fps: 15,
            max_fps: 30,
            max_queue_ms: 150,
            recovery_increase_percent: 10,
            congestion_reduce_percent: 20,
            recovery_freeze_ms: 2_000,
        },
    }
}

/// A TCP profile at 1080p.
fn tcp_stable_1080p() -> VideoProfile {
    VideoProfile {
        profile_type: VideoProfileType::TcpStable,
        rate: VideoRateConfig {
            mode: RateControlMode::FixedBitrate,
            target_kbps: 8_000,
            min_kbps: 2_000,
            max_kbps: 10_000,
            target_fps: 30,
            min_fps: 10,
            max_fps: 30,
            max_queue_ms: 150,
            recovery_increase_percent: 5,
            congestion_reduce_percent: 25,
            recovery_freeze_ms: 3_000,
        },
    }
}

#[test]
fn hq_profile_sets_current_kbps_to_target() {
    let mut qos = VideoQoS::default();
    qos.on_connection_open(1, true);
    let profile = office_clear_1080p();
    qos.user_video_profile(1, profile, 100, 1_000);
    assert!(qos.hq_enabled());
    assert_eq!(qos.current_kbps(), profile.rate.target_kbps);
    assert_eq!(qos.bitrate(), profile.rate.target_kbps);
}

#[test]
fn congested_queue_delay_reduces_current_kbps() {
    let mut qos = VideoQoS::default();
    qos.on_connection_open(1, true);
    let profile = office_clear_1080p();
    let target = profile.rate.target_kbps;
    qos.user_video_profile(1, profile, 100, 1_000);
    assert_eq!(qos.current_kbps(), target);

    // Congested queue delay (above the hold threshold and max_queue_ms).
    qos.hq_on_queue_delay(200);
    assert!(qos.current_kbps() < target);
    assert_eq!(qos.hq_state(), QosState::Congested);

    // The live bitrate follows the controller's current bitrate.
    let mut rate = *qos.hq_rate_config().unwrap();
    rate.target_kbps = qos.current_kbps().clamp(rate.min_kbps, rate.max_kbps);
    assert_eq!(rate.target_kbps, qos.current_kbps());
    assert!(rate.target_kbps < target);
}

#[test]
fn clear_pending_frames_does_not_drive_state_machine() {
    let mut qos = VideoQoS::default();
    qos.on_connection_open(1, true);
    qos.user_video_profile(1, tcp_stable_1080p(), 50, 1_000);
    let before = qos.hq_state();
    let kbps_before = qos.current_kbps();
    qos.on_frame_enqueue(1000);
    qos.on_frame_enqueue(1000);
    qos.clear_pending_frames();
    assert_eq!(qos.pending_video_bytes(), 0);
    assert_eq!(qos.hq_state(), before);
    assert_eq!(qos.current_kbps(), kbps_before);
}

#[test]
fn unmatched_frame_ack_does_not_pop_front() {
    let mut qos = VideoQoS::default();
    let seq = qos.on_frame_enqueue(500);
    qos.on_frame_delivered(seq.wrapping_add(999));
    assert_eq!(qos.pending_video_bytes(), 500);
}

#[test]
fn tcp_stable_recovers_fps_after_congestion() {
    let mut qos = VideoQoS::default();
    qos.on_connection_open(1, true);
    let mut profile = tcp_stable_1080p();
    profile.rate.mode = RateControlMode::Auto;
    let target_fps = profile.rate.target_fps;
    qos.user_video_profile(1, profile, 50, 1_000);
    assert_eq!(qos.fps(), target_fps);

    qos.hq_on_queue_delay(200); // congested: the frame rate drops
    let fps_after_drop = qos.fps();
    assert!(fps_after_drop < target_fps);

    // End the recovery freeze so that probing upwards can raise the rate.
    qos.clear_recovery_freeze();
    for _ in 0..12 {
        qos.hq_on_queue_delay(30);
    }
    assert!(qos.fps() > fps_after_drop);
}

#[test]
fn default_session_values() {
    let mut qos = VideoQoS::default();
    assert_eq!(qos.fps(), 30);
    assert_eq!(qos.bitrate(), 0);
    assert!(!qos.hq_enabled());
    assert_eq!(qos.hq_state(), QosState::Stable);
    assert_eq!(qos.last_queue_delay_ms(), 0);
    assert!(!qos.take_need_keyframe());
    assert!(!qos.take_drop_old_frames());
    assert_eq!(qos.encoder_fallback_reason(), "");
    assert!(!qos.is_encoder_hardware());
    assert!(!qos.record());
    assert_eq!(qos.latest_quality(), Quality::Balanced);
    assert_eq!(qos.user_count(), 0);
}

#[test]
fn stored_bitrate_outside_hq() {
    let mut qos = VideoQoS::default();
    qos.store_bitrate(3_000);
    assert_eq!(qos.bitrate(), 3_000);
    assert_eq!(qos.current_kbps(), 3_000);
}

#[test]
fn encoder_settings_round_trip() {
    let mut qos = VideoQoS::default();
    qos.set_encoder_fallback_reason("no hardware codec".to_string());
    qos.set_encoder_hardware(true);
    assert_eq!(qos.encoder_fallback_reason(), "no hardware codec");
    assert!(qos.is_encoder_hardware());
}

#[test]
fn emergency_requests_keyframe_and_drop() {
    let mut qos = VideoQoS::default();
    qos.on_connection_open(1, true);
    qos.user_video_profile(1, office_clear_1080p(), 100, 1_000);
    qos.hq_on_queue_delay(300);
    assert_eq!(qos.hq_state(), QosState::Emergency);
    // 16000 - 30% = 11200
    assert_eq!(qos.current_kbps(), 11_200);
    // office profile: 30 - 2 = 28
    assert_eq!(qos.fps(), 28);
    assert!(qos.take_need_keyframe());
    assert!(!qos.take_need_keyframe());
    assert!(qos.take_drop_old_frames());
    assert!(!qos.take_drop_old_frames());
}

#[test]
fn congestion_reduces_by_configured_percent() {
    let mut qos = VideoQoS::default();
    qos.on_connection_open(1, true);
    qos.user_video_profile(1, office_clear_1080p(), 100, 1_000);
    qos.hq_on_queue_delay(200);
    // 16000 - 20% = 12800
    assert_eq!(qos.current_kbps(), 12_800);
    assert_eq!(qos.hq_state(), QosState::Congested);
}

#[test]
fn hq_kbps_never_below_minimum() {
    let mut qos = VideoQoS::default();
    qos.on_connection_open(1, true);
    let profile = office_clear_1080p();
    qos.user_video_profile(1, profile, 100, 1_000);
    for _ in 0..50 {
        qos.hq_on_queue_delay(400);
    }
    assert_eq!(qos.current_kbps(), profile.rate.min_kbps);
    assert_eq!(qos.fps(), profile.rate.min_fps);
}

#[test]
fn hq_probe_up_raises_kbps_but_not_above_max() {
    let mut qos = VideoQoS::default();
    qos.on_connection_open(1, true);
    let profile = office_clear_1080p();
    qos.user_video_profile(1, profile, 100, 1_000);
    qos.hq_on_queue_delay(10);
    qos.hq_on_queue_delay(10);
    assert_eq!(qos.current_kbps(), 16_000);
    assert_eq!(qos.hq_state(), QosState::ProbeUp);
    qos.hq_on_queue_delay(10);
    // +10%
    assert_eq!(qos.current_kbps(), 17_600);
    for _ in 0..60 {
        qos.hq_on_queue_delay(10);
    }
    assert_eq!(qos.current_kbps(), profile.rate.max_kbps);
}

#[test]
fn hq_hold_state_keeps_bitrate() {
    let mut qos = VideoQoS::default();
    qos.on_connection_open(1, true);
    qos.user_video_profile(1, office_clear_1080p(), 100, 1_000);
    qos.hq_on_queue_delay(100);
    assert_eq!(qos.hq_state(), QosState::Hold);
    assert_eq!(qos.current_kbps(), 16_000);
    assert_eq!(qos.fps(), 30);
}

#[test]
fn fixed_bitrate_only_reacts_beyond_queue_budget() {
    let mut qos = VideoQoS::default();
    qos.on_connection_open(1, true);
    qos.user_video_profile(1, tcp_stable_1080p(), 50, 1_000);
    qos.hq_on_queue_delay(149);
    assert_eq!(qos.hq_state(), QosState::Stable);
    assert_eq!(qos.current_kbps(), 8_000);
    qos.hq_on_queue_delay(151);
    assert_eq!(qos.hq_state(), QosState::Emergency);
    assert_eq!(qos.current_kbps(), 8_000);
    assert_eq!(qos.fps(), 30);
    assert!(qos.take_need_keyframe());
    assert!(qos.take_drop_old_frames());
}

#[test]
fn hq_turns_off_when_last_hq_user_leaves() {
    let mut qos = VideoQoS::default();
    qos.on_connection_open(1, true);
    qos.on_connection_open(2, true);
    qos.user_video_profile(1, office_clear_1080p(), 100, 1_000);
    assert!(qos.hq_enabled());
    qos.on_connection_close(1);
    assert!(!qos.hq_enabled());
    assert!(qos.hq_rate_config().is_none());
    assert_eq!(qos.user_count(), 1);
}

#[test]
fn closing_last_user_resets_session() {
    let mut qos = VideoQoS::default();
    qos.on_connection_open(1, true);
    qos.user_video_profile(1, office_clear_1080p(), 100, 1_000);
    qos.on_frame_enqueue(700);
    qos.on_connection_close(1);
    assert!(!qos.hq_enabled());
    assert_eq!(qos.current_kbps(), 0);
    assert_eq!(qos.pending_video_bytes(), 0);
    assert_eq!(qos.fps(), 30);
    assert_eq!(qos.user_count(), 0);
}

#[test]
fn most_recent_profile_wins() {
    let mut qos = VideoQoS::default();
    qos.on_connection_open(1, true);
    qos.on_connection_open(2, true);
    qos.user_video_profile(1, office_clear_1080p(), 100, 1_000);
    qos.user_video_profile(2, tcp_stable_1080p(), 50, 2_000);
    assert_eq!(qos.hq_rate_config().unwrap().target_kbps, 8_000);
    // The session bitrate was already set: it is clamped into the new bounds.
    assert_eq!(qos.current_kbps(), 10_000);
}

#[test]
fn pending_frames_are_bounded() {
    let mut qos = VideoQoS::default();
    let mut last = 0;
    for _ in 0..200 {
        last = qos.on_frame_enqueue(1);
    }
    assert_eq!(last, 200);
    // 30 fps * 150 ms / 1000 is below the floor of 30 frames.
    assert_eq!(qos.pending_video_bytes(), 30);
}

#[test]
fn delivered_frame_leaves_queue() {
    let mut qos = VideoQoS::default();
    let a = qos.on_frame_enqueue(100);
    let _b = qos.on_frame_enqueue(200);
    qos.on_frame_delivered(a);
    assert_eq!(qos.pending_video_bytes(), 200);
    qos.on_video_frame_fetched();
    assert_eq!(qos.pending_video_bytes(), 0);
    qos.on_video_frame_fetched();
    assert_eq!(qos.pending_video_bytes(), 0);
}

#[test]
fn custom_fps_ignored_outside_bounds() {
    let mut qos = VideoQoS::default();
    qos.on_connection_open(1, true);
    qos.user_custom_fps(1, 0);
    qos.user_custom_fps(1, 121);
    qos.user_custom_fps(1, 20);
    qos.user_auto_adjust_fps(1, 500);
    // The session rate follows delay reports; capped by the user's custom rate.
    qos.user_network_delay(1, 20);
    assert!(qos.fps() <= 20);
}

#[test]
fn user_record_flag() {
    let mut qos = VideoQoS::default();
    qos.on_connection_open(1, true);
    qos.on_connection_open(2, true);
    assert!(!qos.record());
    qos.user_record(2, true);
    assert!(qos.record());
    qos.user_record(3, true);
    qos.user_record(2, false);
    assert!(!qos.record());
}

#[test]
fn image_quality_conversion_and_latest() {
    let mut qos = VideoQoS::default();
    qos.on_connection_open(1, true);
    qos.on_connection_open(2, true);
    qos.user_image_quality(1, 4, 10);
    assert_eq!(qos.latest_quality(), Quality::Best);
    qos.user_image_quality(2, 2, 20);
    assert_eq!(qos.latest_quality(), Quality::Low);
    // custom: bits 8..20 hold 50 -> ratio 1.00
    qos.user_image_quality(1, 50 << 8, 30);
    assert_eq!(qos.latest_quality(), Quality::Custom(100));
    assert_eq!(qos.latest_quality().ratio(), 100);
    // a tiny custom value is clamped to the minimum ratio
    qos.user_image_quality(2, 1 << 8, 40);
    assert_eq!(qos.latest_quality(), Quality::Custom(20));
    // an unknown user does not count
    qos.user_image_quality(9, 3, 50);
    assert_eq!(qos.latest_quality(), Quality::Custom(20));
}

#[test]
fn first_delay_report_asks_for_ratio_adjustment() {
    let mut qos = VideoQoS::default();
    qos.on_connection_open(1, true);
    assert!(qos.user_network_delay(1, 30));
    assert!(!qos.user_network_delay(1, 30));
    assert!(!qos.user_network_delay(7, 30));
}

#[test]
fn high_delay_lowers_fps() {
    let mut qos = VideoQoS::default();
    qos.on_connection_open(1, true);
    for _ in 0..5 {
        qos.user_network_delay(1, 1_000);
    }
    // balanced quality: minimum 10 fps, 150 * 10 / 1000 = 1
    assert_eq!(qos.fps(), 1);
}

#[test]
fn late_response_caps_fps() {
    let mut qos = VideoQoS::default();
    qos.on_connection_open(1, true);
    qos.user_delay_response_elapsed(1, 3_000);
    assert!(qos.fps() <= 2);
}

#[test]
fn displays_and_vbr_state() {
    let mut qos = VideoQoS::default();
    assert!(qos.in_vbr_state());
    qos.new_display("display0".to_string());
    assert!(!qos.in_vbr_state());
    qos.set_support_changing_quality("display0", true);
    assert!(qos.in_vbr_state());
    qos.new_display("display1".to_string());
    assert!(!qos.in_vbr_state());
    qos.remove_display("display1");
    assert!(qos.in_vbr_state());
    qos.on_connection_open(1, false);
    assert!(!qos.in_vbr_state());
}

#[test]
fn display_update_without_abr_uses_latest_quality() {
    let mut qos = VideoQoS::default();
    qos.on_connection_open(1, false);
    qos.new_display("display0".to_string());
    assert_eq!(qos.update_display_data("display0", 5), RatioAction::UseLatestQuality);
}

#[test]
fn ratio_plan_follows_delay() {
    let mut qos = VideoQoS::default();
    assert!(qos.ratio_plan(true).is_none());
    qos.on_connection_open(1, true);
    qos.store_bitrate(2_000);
    // no delay sample yet: the threshold of 150 ms counts
    let plan = qos.ratio_plan(false).unwrap();
    assert_eq!(plan.max_delay, 150);
    assert_eq!(plan.step, RatioStep::Down5);
    assert_eq!(plan.bitrate, 2_000);
    assert_eq!(plan.target_quality, Quality::Balanced);
    qos.user_network_delay(1, 20);
    assert_eq!(qos.ratio_plan(true).unwrap().step, RatioStep::Up15);
    assert_eq!(qos.ratio_plan(false).unwrap().step, RatioStep::Keep);
    qos.restart_ratio_timer_from(Instant::now());
}

#[test]
fn reversed_bounds_refused_only_with_a_bitrate() {
    let mut qos = VideoQoS::default();
    qos.on_connection_open(1, true);
    let mut reversed = office_clear_1080p();
    reversed.rate.min_kbps = 30_000;
    // no HQ bitrate yet: the configuration can be taken
    assert!(qos.video_profile_refresh_ok(1, &reversed, 100, 1_000));
    qos.user_video_profile(1, reversed, 100, 1_000);
    assert_eq!(qos.hq_current_kbps(), 16_000);
    // with a bitrate set, taking it again would clamp into reversed bounds
    assert!(!qos.video_profile_refresh_ok(1, &reversed, 100, 2_000));
    assert!(qos.video_profile_refresh_ok(1, &office_clear_1080p(), 100, 2_000));
    qos.on_connection_open(2, true);
    // closing user 2 leaves user 1's reversed configuration to be taken
    assert!(!qos.connection_close_ok(2));
    // closing user 1 leaves no HQ configuration
    assert!(qos.connection_close_ok(1));
    assert!(qos.connection_close_ok(7) == false);
}

#[test]
fn slow_network_keeps_fps_below_quality_minimum() {
    let mut qos = VideoQoS::default();
    qos.on_connection_open(1, true);
    // balanced quality: minimum 10 fps
    qos.user_network_delay(1, 180);
    assert!(qos.fps() < 10);
    assert_eq!(qos.fps(), 9);
}

#[test]
fn hq_current_kbps_before_and_after_profile() {
    let mut qos = VideoQoS::default();
    assert_eq!(qos.hq_current_kbps(), 0);
    qos.on_connection_open(1, true);
    qos.user_video_profile(1, office_clear_1080p(), 100, 1_000);
    assert_eq!(qos.hq_current_kbps(), 16_000);
    qos.restart_ratio_timer_from(Instant::now());
    assert_eq!(qos.hq_current_kbps(), 16_000);
}

#[test]
fn new_connection_caps_fps_for_one_second() {
    let mut capped = VideoQoS::default();
    capped.on_connection_open(1, true);
    capped.user_network_delay_at(1, 120, 0);
    assert_eq!(capped.fps(), 15);

    let mut free = VideoQoS::default();
    free.on_connection_open(1, true);
    free.user_network_delay_at(1, 120, 1);
    assert_eq!(free.fps(), 30);
}

#[test]
fn late_response_at_caps_fps_to_two() {
    let mut qos = VideoQoS::default();
    qos.on_connection_open(1, true);
    qos.user_delay_response_elapsed_at(1, 3_000, 5);
    assert_eq!(qos.fps(), 2);
    // an answer of an unknown user changes nothing
    qos.user_delay_response_elapsed_at(9, 3_000, 5);
    assert_eq!(qos.fps(), 2);
}

#[test]
fn ratio_adjusts_only_after_interval() {
    let mut qos = VideoQoS::default();
    qos.on_connection_open(1, true);
    qos.new_display("display0".to_string());
    qos.set_support_changing_quality("display0", true);
    assert!(qos.in_vbr_state());
    // two seconds in: keep the ratio and go on counting
    assert_eq!(qos.update_display_data_at("display0", 5, 2, 5, Instant::now()), RatioAction::Keep);
    // three seconds in: 7 encodes make a dynamic screen, and counting restarts
    assert_eq!(qos.update_display_data_at("display0", 2, 3, 5, Instant::now()), RatioAction::Adjust(true));
    assert_eq!(qos.update_display_data_at("display0", 1, 3, 5, Instant::now()), RatioAction::Adjust(false));
}

#[test]
fn recovery_freeze_lasts_its_configured_length() {
    let mut qos = VideoQoS::default();
    qos.on_connection_open(1, true);
    qos.user_video_profile(1, office_clear_1080p(), 100, 1_000);
    let now = Instant::now();
    // congestion sets a freeze of 2000 ms
    qos.hq_on_queue_delay_at(200, 0, now);
    assert_eq!(qos.hq_state(), QosState::Congested);
    // a good sample 1999 ms later does not probe upwards
    qos.hq_on_queue_delay_at(30, 1_999, now);
    assert_eq!(qos.hq_state(), QosState::Stable);
    // once 2000 ms have passed it does
    qos.hq_on_queue_delay_at(30, 2_000, now);
    assert_eq!(qos.hq_state(), QosState::ProbeUp);
}

#[test]
fn pending_bytes_wrap_at_32_bits() {
    let mut qos = VideoQoS::default();
    qos.on_frame_enqueue_at(3_000_000_000, Instant::now());
    qos.on_frame_enqueue_at(3_000_000_000, Instant::now());
    assert_eq!(qos.pending_video_bytes(), 1_705_032_704);
}

#[test]
fn delivered_frame_records_its_wait() {
    let mut qos = VideoQoS::started_at(Instant::now());
    let seq = qos.on_frame_enqueue_at(500, Instant::now());
    qos.on_frame_delivered_at(seq, 80, 0, Instant::now());
    assert_eq!(qos.last_queue_delay_ms(), 80);
    assert_eq!(qos.pending_frame_count(), 0);
    // an unknown sequence number changes nothing
    qos.on_frame_delivered_at(seq + 7, 90, 0, Instant::now());
    assert_eq!(qos.last_queue_delay_ms(), 80);
}

#[test]
fn last_user_leaving_starts_afresh() {
    let now = Instant::now();
    let mut qos = VideoQoS::started_at(now);
    qos.on_connection_open_at(1, false, now);
    qos.on_connection_open_at(2, true, now);
    qos.store_bitrate(3_000);
    qos.on_connection_close_at(1, now);
    assert_eq!(qos.user_count(), 1);
    assert_eq!(qos.bitrate(), 3_000);
    qos.on_connection_close_at(2, now);
    assert_eq!(qos.user_count(), 0);
    assert_eq!(qos.bitrate(), 0);
}
