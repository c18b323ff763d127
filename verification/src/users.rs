//! The abstract per-user session data and the session-wide values derived
//! from all users.
use crate::delay::{clamp, UserDelayView, MAX_FPS, MIN_FPS};
use crate::profile::{Quality, VideoProfileType, VideoRateConfig};
use vstd::prelude::*;

verus! {

/// Default frame rate of a session.
pub const FPS: u32 = 30;

/// Frame rate of a user before any delay report.
pub const INIT_FPS: u32 = 15;

/// The abstract state of one connected user.
pub struct UserView {
    pub id: i32,
    /// Kept for compatibility with older peers.
    pub auto_adjust_fps: Option<u32>,
    pub custom_fps: Option<u32>,
    /// When and what image quality the user last asked for.
    pub quality: Option<(i64, Quality)>,
    pub delay: UserDelayView,
    pub record: bool,
    /// When set, the user takes part in the HQ path.
    pub rate_config: Option<VideoRateConfig>,
    pub profile_type: Option<VideoProfileType>,
}

impl UserView {
    /// Well-formedness of a user's data.
    pub open spec fn wf(self) -> bool {
        self.delay.wf()
    }

    /// A freshly connected user.
    pub open spec fn fresh(id: i32) -> UserView {
        UserView {
            id,
            auto_adjust_fps: None,
            custom_fps: None,
            quality: None,
            delay: UserDelayView::initial(),
            record: false,
            rate_config: None,
            profile_type: None,
        }
    }
}

/// No two users share an id, and each user is well formed.
pub open spec fn users_wf(s: Seq<UserView>) -> bool {
    &&& forall|i: int, j: int| 0 <= i < j < s.len() ==> s[i].id != s[j].id
    &&& forall|i: int| 0 <= i < s.len() ==> (#[trigger] s[i]).wf()
}

/// Whether a user with this id is connected.
pub open spec fn has_user(s: Seq<UserView>, id: i32) -> bool {
    exists|i: int| 0 <= i < s.len() && s[i].id == id
}

/// The position of the user with this id (meaningful when `has_user`).
pub open spec fn user_index(s: Seq<UserView>, id: i32) -> int {
    choose|i: int| 0 <= i < s.len() && s[i].id == id
}

/// The frame rate a user allows: the custom rate (default `FPS`), lowered to
/// the auto-adjusted rate when that is smaller (or the custom rate is 0).
pub open spec fn user_fps(u: UserView) -> u32 {
    let fps = match u.custom_fps {
        Some(f) => f,
        None => FPS,
    };
    match u.auto_adjust_fps {
        Some(a) => if fps == 0 || a < fps {
            a
        } else {
            fps
        },
        None => fps,
    }
}

/// The smallest allowed frame rate of at least `MIN_FPS` among the users.
pub open spec fn min_user_fps(s: Seq<UserView>) -> Option<u32>
    decreases s.len(),
{
    if s.len() == 0 {
        None
    } else {
        let rest = min_user_fps(s.drop_last());
        let f = user_fps(s.last());
        if f >= MIN_FPS {
            match rest {
                Some(m) => Some(
                    if f < m {
                        f
                    } else {
                        m
                    },
                ),
                None => Some(f),
            }
        } else {
            rest
        }
    }
}

/// The highest frame rate all users allow, within `[MIN_FPS, MAX_FPS]`.
pub open spec fn highest_fps(s: Seq<UserView>) -> u32 {
    clamp(
        match min_user_fps(s) {
            Some(m) => m as int,
            None => FPS as int,
        },
        MIN_FPS as int,
        MAX_FPS as int,
    ) as u32
}

/// The frame rate chosen for a user from delay reports (`INIT_FPS` before any).
pub open spec fn delay_fps(u: UserView) -> u32 {
    match u.delay.fps {
        Some(f) => f,
        None => INIT_FPS,
    }
}

/// The smallest frame rate chosen from delay reports among the users.
pub open spec fn min_delay_fps(s: Seq<UserView>) -> Option<u32>
    decreases s.len(),
{
    if s.len() == 0 {
        None
    } else {
        let f = delay_fps(s.last());
        match min_delay_fps(s.drop_last()) {
            Some(m) => Some(
                if f < m {
                    f
                } else {
                    m
                },
            ),
            None => Some(f),
        }
    }
}

/// Whether some user's delay response arrived late.
pub open spec fn any_response_delayed(s: Seq<UserView>) -> bool {
    exists|i: int| 0 <= i < s.len() && (#[trigger] s[i]).delay.response_delayed
}

/// Whether some user records the session.
pub open spec fn any_record(s: Seq<UserView>) -> bool {
    exists|i: int| 0 <= i < s.len() && (#[trigger] s[i]).record
}

/// The most recent quality setting among the users; of equally recent ones,
/// the one of the last user.
pub open spec fn latest_quality_entry(s: Seq<UserView>) -> Option<(i64, Quality)>
    decreases s.len(),
{
    if s.len() == 0 {
        None
    } else {
        let rest = latest_quality_entry(s.drop_last());
        match s.last().quality {
            Some(q) => match rest {
                Some(b) => if q.0 >= b.0 {
                    Some(q)
                } else {
                    rest
                },
                None => Some(q),
            },
            None => rest,
        }
    }
}

/// The quality of the most recent setting, balanced when there is none.
pub open spec fn latest_quality(s: Seq<UserView>) -> Quality {
    match latest_quality_entry(s) {
        Some(q) => q.1,
        None => Quality::Balanced,
    }
}

/// The time key by which HQ users are ordered: when they last set a quality.
pub open spec fn quality_time(u: UserView) -> i64 {
    match u.quality {
        Some(q) => q.0,
        None => 0,
    }
}

/// The profile kind of a user, custom when unset.
pub open spec fn profile_of(u: UserView) -> VideoProfileType {
    match u.profile_type {
        Some(p) => p,
        None => VideoProfileType::Custom,
    }
}

/// Among the users with a rate configuration, the one that set a quality most
/// recently (the last of equally recent ones): its time key, configuration
/// and profile kind.
pub open spec fn latest_rate(s: Seq<UserView>) -> Option<(i64, VideoRateConfig, VideoProfileType)>
    decreases s.len(),
{
    if s.len() == 0 {
        None
    } else {
        let rest = latest_rate(s.drop_last());
        let u = s.last();
        match u.rate_config {
            Some(r) => {
                let cand = (quality_time(u), r, profile_of(u));
                match rest {
                    Some(b) => if cand.0 >= b.0 {
                        Some(cand)
                    } else {
                        rest
                    },
                    None => Some(cand),
                }
            },
            None => rest,
        }
    }
}

/// The largest average delay among the users.
pub open spec fn max_avg_delay(s: Seq<UserView>) -> Option<u32>
    decreases s.len(),
{
    if s.len() == 0 {
        None
    } else {
        let d = s.last().delay.avg_delay();
        match max_avg_delay(s.drop_last()) {
            Some(m) => Some(
                if d >= m {
                    d
                } else {
                    m
                },
            ),
            None => Some(d),
        }
    }
}

/// The smallest RTT estimate among the users that have one.
pub open spec fn min_rtt(s: Seq<UserView>) -> Option<u32>
    decreases s.len(),
{
    if s.len() == 0 {
        None
    } else {
        let rest = min_rtt(s.drop_last());
        match s.last().delay.rtt.rtt() {
            Some(r) => match rest {
                Some(m) => Some(
                    if r < m {
                        r
                    } else {
                        m
                    },
                ),
                None => Some(r),
            },
            None => rest,
        }
    }
}

/// The RTT baseline subtracted from queue delays: the smallest estimate, or 0.
pub open spec fn baseline_rtt(s: Seq<UserView>) -> u32 {
    match min_rtt(s) {
        Some(r) => r,
        None => 0,
    }
}

} // verus!
