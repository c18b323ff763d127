# video_qos

Quality-of-service control for a remote-desktop capture session, written in
Verus. Every contract is proved, except those of the seven wrappers in
`src/clock.rs` around `std::time::{Instant, Duration}` (and the declaration of
`Instant` there), which are trusted and claim nothing of the clock's readings.

- `src/rtt.rs` — round-trip time estimator (historical minimum, window
  minimum, smoothed value).
- `src/delay.rs` — per-user delay history and the frame-rate reaction to a
  network delay report.
- `src/profile.rs` — rate configurations, video profiles, qualities and their
  bitrate ratios (in hundredths).
- `src/hq.rs` — the queue-delay state machine of HQ sessions
  (Stable / ProbeUp / Hold / Congested / Emergency) and its profile-specific
  degradation order.
- `src/users.rs`, `src/model.rs` — the abstract session state and the
  transitions that the controller's contracts are stated in.
- `src/qos.rs` — the session controller `VideoQoS`.
- `src/capability.rs` — server capability discovery: URL, reply selection and
  which settings a reply fills in.
- `src/laws.rs` — properties that hold across calls: estimator bounds,
  frame-rate direction under good and bad networks, HQ bitrate bounds and
  recovery, the latest profile taking effect, bounded frame queue.
- `src/clock.rs` — the monotonic clock the controller reads.

`app/` holds the host-side glue: the encoder's floating-point bitrate ratio,
the host's configuration and clock, and the HTTP capability fetch.
