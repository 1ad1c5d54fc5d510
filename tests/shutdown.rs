use live_wallpaper::frame_loop::{Command, FrameLoop, Input};
use live_wallpaper::pointer::PointerSample;
use live_wallpaper::sampler::{CursorTracker, SamplerStep, POLL_INTERVAL_MS};
use live_wallpaper::shutdown::{exit_code, JoinStep, JoinWatch, Termination, JOIN_GRACE_MS, JOIN_POLL_MS};

/// A sampler thread that is in the middle of a poll: it sees a stop request
/// only after its current sleep of `POLL_INTERVAL_MS` ends.
struct MockSampler {
    tracker: CursorTracker,
    busy_ms: u64,
    finished: bool,
}

impl MockSampler {
    fn advance(&mut self, ms: u64, stop_requested: bool) {
        if self.finished {
            return;
        }
        self.busy_ms = self.busy_ms.saturating_sub(ms);
        if self.busy_ms == 0 {
            match self.tracker.poll(stop_requested, Some(PointerSample { x: 3, y: 4 })) {
                SamplerStep::Stop => self.finished = true,
                _ => self.busy_ms = POLL_INTERVAL_MS,
            }
        }
    }
}

#[test]
fn closed_during_poll_joins_within_grace() {
    let mut lp = FrameLoop::new();
    lp.handle(Input::Configure { width: 100, height: 100 });
    let mut sampler = MockSampler { tracker: CursorTracker::new(), busy_ms: POLL_INTERVAL_MS - 1, finished: false };
    assert_eq!(lp.handle(Input::Closed), Command::Shutdown);
    let mut watch = JoinWatch::new();
    let mut elapsed: u64 = 0;
    let outcome = loop {
        match watch.check(sampler.finished) {
            JoinStep::Wait => {
                elapsed += JOIN_POLL_MS;
                sampler.advance(JOIN_POLL_MS, true);
            }
            other => break other,
        }
    };
    assert_eq!(outcome, JoinStep::Join);
    assert!(elapsed <= JOIN_GRACE_MS);
    assert!(elapsed <= POLL_INTERVAL_MS + JOIN_POLL_MS);
    assert_eq!(exit_code(Termination::Closed), 0);
}

#[test]
fn stuck_sampler_is_abandoned_at_grace() {
    let mut watch = JoinWatch::new();
    let mut waits: u64 = 0;
    let outcome = loop {
        match watch.check(false) {
            JoinStep::Wait => waits += 1,
            other => break other,
        }
    };
    assert_eq!(outcome, JoinStep::Abandon);
    assert_eq!(waits, JOIN_GRACE_MS / JOIN_POLL_MS);
    assert_eq!(watch.waited_ms, JOIN_GRACE_MS);
    assert_eq!(watch.check(false), JoinStep::Abandon);
    assert_eq!(watch.check(true), JoinStep::Join);
}

#[test]
fn finished_sampler_joins_immediately() {
    let mut watch = JoinWatch::new();
    assert_eq!(watch.check(true), JoinStep::Join);
    assert_eq!(watch.waited_ms, 0);
}

#[test]
fn exit_codes() {
    assert_eq!(exit_code(Termination::Closed), 0);
    assert_ne!(exit_code(Termination::InitFailed), 0);
}

#[test]
fn sampler_publishes_only_changes() {
    let mut t = CursorTracker::new();
    let a = PointerSample { x: 10, y: 10 };
    let b = PointerSample { x: 20, y: 10 };
    assert_eq!(t.poll(false, Some(a)), SamplerStep::Publish(a));
    assert_eq!(t.poll(false, Some(a)), SamplerStep::Unchanged);
    assert_eq!(t.poll(false, Some(b)), SamplerStep::Publish(b));
    assert_eq!(t.poll(false, Some(a)), SamplerStep::Publish(a));
    assert_eq!(t.last, Some(a));
}

#[test]
fn sampler_first_reading_is_published_even_at_negative_one() {
    let mut t = CursorTracker::new();
    let p = PointerSample { x: -1, y: -1 };
    assert_eq!(t.poll(false, Some(p)), SamplerStep::Publish(p));
}

#[test]
fn sampler_stops_on_request_or_failure() {
    let mut t = CursorTracker::new();
    assert_eq!(t.poll(true, Some(PointerSample { x: 1, y: 1 })), SamplerStep::Stop);
    assert_eq!(t.last, None);
    assert_eq!(t.poll(false, None), SamplerStep::Stop);
    assert_eq!(t.last, None);
}
