//! Video profiles, rate configurations, quality settings and their ratios.
use vstd::prelude::*;

verus! {

/// State of the queue-delay driven controller.
#[derive(Clone, Copy, Debug, PartialEq, Eq, Structural)]
pub enum QosState {
    Stable,
    ProbeUp,
    Hold,
    Congested,
    Emergency,
}

/// How the encoder's bitrate is controlled.
#[derive(Clone, Copy, Debug, PartialEq, Eq, Structural)]
pub enum RateControlMode {
    Auto,
    FixedBitrate,
}

/// The named kinds of video profile, each with its own degradation order.
#[derive(Clone, Copy, Debug, PartialEq, Eq, Structural)]
pub enum VideoProfileType {
    OfficeClear,
    MotionSmooth,
    TcpStable,
    Custom,
}

/// Bitrate, frame-rate and queue limits negotiated for a session.
#[derive(Clone, Copy, Debug, PartialEq, Eq, Structural)]
pub struct VideoRateConfig {
    pub mode: RateControlMode,
    pub target_kbps: u32,
    pub min_kbps: u32,
    pub max_kbps: u32,
    pub target_fps: u32,
    pub min_fps: u32,
    pub max_fps: u32,
    pub max_queue_ms: u32,
    pub recovery_increase_percent: u32,
    pub congestion_reduce_percent: u32,
    pub recovery_freeze_ms: u32,
}

impl VideoRateConfig {
    /// The bitrate bounds are ordered, as clamping into them needs.
    pub open spec fn wf(self) -> bool {
        self.min_kbps <= self.max_kbps
    }
}

/// A negotiated video profile: its kind and its rate configuration.
#[derive(Clone, Copy, Debug, PartialEq, Eq, Structural)]
pub struct VideoProfile {
    pub profile_type: VideoProfileType,
    pub rate: VideoRateConfig,
}

/// Image quality requested by a user. A custom quality carries its bitrate
/// ratio in hundredths (a ratio of 0.67 is `Custom(67)`).
#[derive(Clone, Copy, Debug, PartialEq, Eq, Structural)]
pub enum Quality {
    Balanced,
    Low,
    Best,
    Custom(u32),
}

/// Ratio of the best quality, in hundredths.
pub const BR_BEST: u32 = 150;

/// Ratio of the balanced quality, in hundredths.
pub const BR_BALANCED: u32 = 67;

/// Ratio of the low (speed) quality, in hundredths.
pub const BR_SPEED: u32 = 50;

/// Smallest custom ratio, in hundredths.
pub const BR_MIN: u32 = 20;

/// Largest custom ratio, in hundredths.
pub const BR_MAX: u32 = 4000;

/// Wire value of the low image quality.
pub const IMAGE_QUALITY_LOW: i32 = 2;

/// Wire value of the balanced image quality.
pub const IMAGE_QUALITY_BALANCED: i32 = 3;

/// Wire value of the best image quality.
pub const IMAGE_QUALITY_BEST: i32 = 4;

impl Quality {
    /// The bitrate ratio of a quality, in hundredths.
    pub open spec fn ratio_spec(self) -> u32 {
        match self {
            Quality::Best => BR_BEST,
            Quality::Balanced => BR_BALANCED,
            Quality::Low => BR_SPEED,
            Quality::Custom(r) => r,
        }
    }

    /// The bitrate ratio of a quality, in hundredths.
    pub fn ratio(&self) -> (res: u32)
        ensures
            res == self.ratio_spec(),
    {
        match self {
            Quality::Best => BR_BEST,
            Quality::Balanced => BR_BALANCED,
            Quality::Low => BR_SPEED,
            Quality::Custom(r) => *r,
        }
    }
}

/// The custom ratio (in hundredths) that an image-quality value encodes in its
/// bits 8..20: twice that field, clamped into `[BR_MIN, BR_MAX]`.
pub open spec fn custom_ratio_of(image_quality: i32) -> u32 {
    let field = ((image_quality >> 8u32) & 0xFFFi32) as int;
    let r = field * 2;
    (if r < BR_MIN {
        BR_MIN as int
    } else if r > BR_MAX {
        BR_MAX as int
    } else {
        r
    }) as u32
}

/// The quality that an image-quality value from a peer stands for.
pub open spec fn quality_of(image_quality: i32) -> Quality {
    if image_quality == IMAGE_QUALITY_BALANCED {
        Quality::Balanced
    } else if image_quality == IMAGE_QUALITY_LOW {
        Quality::Low
    } else if image_quality == IMAGE_QUALITY_BEST {
        Quality::Best
    } else {
        Quality::Custom(custom_ratio_of(image_quality))
    }
}

/// Converts an image-quality value from a peer into a quality.
pub fn convert_quality(image_quality: i32) -> (res: Quality)
    ensures
        res == quality_of(image_quality),
{
    if image_quality == IMAGE_QUALITY_BALANCED {
        Quality::Balanced
    } else if image_quality == IMAGE_QUALITY_LOW {
        Quality::Low
    } else if image_quality == IMAGE_QUALITY_BEST {
        Quality::Best
    } else {
        let field: i32 = (image_quality >> 8u32) & 0xFFFi32;
        assert(0 <= ((image_quality >> 8u32) & 0xFFFi32) <= 0xFFF) by (bit_vector);
        let r: u32 = (field as u32) * 2;
        let c = if r < BR_MIN {
            BR_MIN
        } else if r > BR_MAX {
            BR_MAX
        } else {
            r
        };
        Quality::Custom(c)
    }
}

/// The minimum and the normal frame rate used by the delay-driven frame-rate
/// control for a target ratio (in hundredths): the better the quality, the
/// lower the frame rates.
pub open spec fn fps_bounds_for_ratio(ratio: u32) -> (u32, u32) {
    if ratio >= BR_BEST {
        (8, 16)
    } else if ratio >= BR_BALANCED {
        (10, 20)
    } else {
        (12, 24)
    }
}

/// The frame-rate bounds for a target ratio (in hundredths).
pub fn fps_bounds(ratio: u32) -> (res: (u32, u32))
    ensures
        res == fps_bounds_for_ratio(ratio),
{
    if ratio >= BR_BEST {
        (8, 16)
    } else if ratio >= BR_BALANCED {
        (10, 20)
    } else {
        (12, 24)
    }
}

} // verus!
