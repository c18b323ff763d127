use video_qos::delay::UserDelay;
use video_qos::profile::{convert_quality, fps_bounds, Quality};
use video_qos::rtt::RttCalculator;

#[test]
fn rtt_needs_ten_samples() {
    let mut r = RttCalculator::default();
    assert_eq!(r.get_rtt(), None);
    for d in [50u32, 40, 60, 45, 70, 80, 90, 55, 65] {
        r.update(d);
    }
    assert_eq!(r.get_rtt(), None);
    r.update(100);
    // the historical minimum once ten samples were seen
    assert_eq!(r.get_rtt(), Some(40));
}

#[test]
fn rtt_smoothed_after_full_window() {
    let mut r = RttCalculator::default();
    r.update(20);
    for _ in 0..59 {
        r.update(100);
    }
    // window still holds the 20
    assert_eq!(r.get_rtt(), Some(20));
    r.update(100);
    // 20 left the window: (20 + 100) / 2
    assert_eq!(r.get_rtt(), Some(60));
    r.update(81);
    // (20 + 81) / 2, rounded down
    assert_eq!(r.get_rtt(), Some(50));
}

#[test]
fn rtt_minimum_only_decreases() {
    let mut r = RttCalculator::default();
    for d in [30u32, 10, 50, 60, 70, 80, 90, 100, 110, 120] {
        r.update(d);
    }
    assert_eq!(r.get_rtt(), Some(10));
    r.update(5);
    assert_eq!(r.get_rtt(), Some(5));
    r.update(500);
    assert_eq!(r.get_rtt(), Some(5));
}

#[test]
fn rtt_clone_keeps_state() {
    let mut r = RttCalculator::default();
    for d in 0..12u32 {
        r.update(d + 7);
    }
    let c = r.clone();
    assert_eq!(c.get_rtt(), r.get_rtt());
    assert_eq!(c.get_rtt(), Some(7));
}

#[test]
fn avg_delay_without_history_is_threshold() {
    let d = UserDelay::default();
    assert_eq!(d.avg_delay(), 150);
    assert_eq!(d.fps(), None);
    assert!(!d.response_delayed());
}

#[test]
fn avg_delay_keeps_three_samples() {
    let mut d = UserDelay::default();
    d.add_delay(100);
    assert_eq!(d.avg_delay(), 100);
    d.add_delay(200);
    assert_eq!(d.avg_delay(), 150);
    d.add_delay(300);
    assert_eq!(d.avg_delay(), 200);
    d.add_delay(400);
    // 100 left the history
    assert_eq!(d.avg_delay(), 300);
}

#[test]
fn avg_delay_subtracts_rtt() {
    let mut d = UserDelay::default();
    for _ in 0..9 {
        d.add_delay(40);
    }
    assert_eq!(d.rtt(), None);
    d.add_delay(100);
    assert_eq!(d.rtt(), Some(40));
    // (40 + 40 + 100) / 3 = 60, minus 40
    assert_eq!(d.avg_delay(), 20);
}

#[test]
fn avg_delay_of_huge_samples_is_exact() {
    let mut d = UserDelay::default();
    d.add_delay(u32::MAX);
    d.add_delay(u32::MAX);
    assert_eq!(d.avg_delay(), u32::MAX);
}

#[test]
fn network_delay_steps() {
    // good network: +1 below the normal rate
    let mut d = UserDelay::default();
    assert_eq!(d.on_network_delay(20, 12, 10, 20, 30), 13);
    assert_eq!(d.fps(), Some(13));
    // third good sample in a row: +5, and the stable counter adds 1
    let mut d = UserDelay::default();
    d.on_network_delay(20, 12, 10, 20, 30);
    d.on_network_delay(20, 12, 10, 20, 30);
    assert_eq!(d.on_network_delay(20, 12, 10, 20, 30), 18);
    // 150..300 ms: the rate scales by 150 / delay, below the minimum
    let mut d = UserDelay::default();
    assert_eq!(d.on_network_delay(180, 30, 10, 20, 30), 9);
    let mut d = UserDelay::default();
    assert_eq!(d.on_network_delay(180, 8, 10, 20, 30), 7);
    let mut d = UserDelay::default();
    assert_eq!(d.on_network_delay(250, 30, 10, 20, 30), 9);
    // 300..600 ms: 150 * min / delay
    let mut d = UserDelay::default();
    assert_eq!(d.on_network_delay(500, 30, 10, 20, 30), 3);
    // clamped to the users' highest rate
    let mut d = UserDelay::default();
    assert_eq!(d.on_network_delay(20, 60, 10, 20, 24), 24);
    // tiny delays count as 10 ms
    let mut d = UserDelay::default();
    assert_eq!(d.on_network_delay(0, 5, 10, 20, 30), 10);
}

#[test]
fn quality_ratios_and_bounds() {
    assert_eq!(Quality::Best.ratio(), 150);
    assert_eq!(Quality::Balanced.ratio(), 67);
    assert_eq!(Quality::Low.ratio(), 50);
    assert_eq!(fps_bounds(150), (8, 16));
    assert_eq!(fps_bounds(67), (10, 20));
    assert_eq!(fps_bounds(66), (12, 24));
    assert_eq!(convert_quality(3), Quality::Balanced);
    assert_eq!(convert_quality(0), Quality::Custom(20));
    assert_eq!(convert_quality(0xFFF << 8), Quality::Custom(4000));
    assert_eq!(convert_quality(1000 << 8), Quality::Custom(2000));
    assert_eq!(convert_quality(-1), Quality::Custom(4000));
}
