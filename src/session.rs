use vstd::prelude::*;

use crate::frame_clock::{elapsed, FrameClock};
use crate::geometry::WindowGeometry;
use crate::settings::Settings;

verus! {

/// A window event, as far as the main loop tells them apart.
#[derive(Clone, Copy, Debug, PartialEq, Eq, Structural)]
pub enum Event {
    /// The client area now has this width and height.
    Resized(u32, u32),
    /// The user asked to close the window.
    CloseRequested,
    /// Any other event; the loop ignores it.
    Other,
}

/// Whether a batch of events holds a close request.
pub open spec fn has_close(events: Seq<Event>) -> bool {
    exists|i: int| 0 <= i < events.len() && events[i] is CloseRequested
}

/// The sizes reported by the resize events of a batch, in order.
pub open spec fn resizes_of(events: Seq<Event>) -> Seq<(u32, u32)>
    decreases events.len(),
{
    if events.len() == 0 {
        seq![]
    } else {
        let rest = resizes_of(events.drop_last());
        match events.last() {
            Event::Resized(w, h) => rest.push((w, h)),
            _ => rest,
        }
    }
}

/// Whether the loop is still running after handling these batches in turn,
/// having started out running.
pub open spec fn running_after(batches: Seq<Seq<Event>>) -> bool {
    forall|j: int| 0 <= j < batches.len() ==> !has_close(batches[j])
}

/// What one iteration of the loop produced.
#[derive(Clone, Debug)]
pub struct Frame {
    /// Nanoseconds since the previous iteration, or since the start.
    pub dt: u64,
    /// Sizes reported by this iteration's resize events, in order.
    pub resizes: Vec<(u32, u32)>,
    /// Whether the loop goes on after this iteration.
    pub running: bool,
}

/// State of the application between its start and its teardown: the settings,
/// the frame clock, the running flag, and whether the final geometry was
/// saved.
#[derive(Clone, Copy, Debug)]
pub struct Session {
    pub settings: Settings,
    pub clock: FrameClock,
    pub running: bool,
    pub geometry_saved: bool,
}

impl Session {
    /// Starts a session with the loaded settings, its clock at `now`.
    pub fn start(settings: Settings, now: u64) -> (r: Session)
        ensures
            r.settings == settings,
            r.clock.last_tick == now,
            r.running,
            !r.geometry_saved,
    {
        Session { settings, clock: FrameClock::start(now), running: true, geometry_saved: false }
    }

    /// Handles one batch of events: a close request clears the running flag for
    /// good; resize events are collected for reporting and change nothing else.
    pub fn handle_events(&mut self, events: &Vec<Event>) -> (resizes: Vec<(u32, u32)>)
        ensures
            final(self).running == (old(self).running && !has_close(events@)),
            resizes@ == resizes_of(events@),
            final(self).settings == old(self).settings,
            final(self).clock == old(self).clock,
            final(self).geometry_saved == old(self).geometry_saved,
    {
        let ghost was_running = self.running;
        let mut resizes: Vec<(u32, u32)> = Vec::new();
        let mut i: usize = 0;
        while i < events.len()
            invariant
                i <= events@.len(),
                self.running == (was_running && !has_close(events@.subrange(0, i as int))),
                resizes@ == resizes_of(events@.subrange(0, i as int)),
                self.settings == old(self).settings,
                self.clock == old(self).clock,
                self.geometry_saved == old(self).geometry_saved,
            decreases events@.len() - i,
        {
            let ghost before = events@.subrange(0, i as int);
            match events[i] {
                Event::Resized(w, h) => {
                    resizes.push((w, h));
                },
                Event::CloseRequested => {
                    self.running = false;
                },
                Event::Other => {},
            }
            i = i + 1;
            proof {
                let after = events@.subrange(0, i as int);
                assert(after.drop_last() =~= before);
                if has_close(after) {
                    let j = choose|j: int| 0 <= j < after.len() && after[j] is CloseRequested;
                    if j < before.len() {
                        assert(before[j] == after[j]);
                    }
                }
                if has_close(before) {
                    let j = choose|j: int| 0 <= j < before.len() && before[j] is CloseRequested;
                    assert(after[j] == before[j]);
                }
            }
        }
        assert(events@.subrange(0, i as int) =~= events@);
        resizes
    }

    /// Runs one iteration of the loop: handles the batch of events, then
    /// measures the time since the previous iteration.
    pub fn iterate(&mut self, events: &Vec<Event>, now: u64) -> (r: Frame)
        ensures
            final(self).running == (old(self).running && !has_close(events@)),
            r.running == final(self).running,
            r.resizes@ == resizes_of(events@),
            r.dt == elapsed(old(self).clock.last_tick, now),
            final(self).clock.last_tick == now,
            final(self).settings == old(self).settings,
            final(self).geometry_saved == old(self).geometry_saved,
    {
        let resizes = self.handle_events(events);
        let dt = self.clock.tick(now);
        Frame { dt, resizes, running: self.running }
    }

    /// Tears the session down: saves the window's final position and size into
    /// the settings. It runs once per session.
    pub fn finish(&mut self, x: i32, y: i32, width: u32, height: u32)
        requires
            !old(self).geometry_saved,
        ensures
            final(self).settings.window_geometry == Some(WindowGeometry { x, y, width, height }),
            final(self).geometry_saved,
            !final(self).running,
            final(self).clock == old(self).clock,
    {
        self.settings.set_window_geometry(x, y, width, height);
        self.geometry_saved = true;
        self.running = false;
    }
}

/// Handling one more batch keeps the loop running exactly when it was running
/// and the batch holds no close request.
pub proof fn lemma_running_after_push(batches: Seq<Seq<Event>>, events: Seq<Event>)
    ensures
        running_after(batches.push(events)) == (running_after(batches) && !has_close(events)),
{
    let all = batches.push(events);
    if running_after(batches) && !has_close(events) {
        assert forall|j: int| 0 <= j < all.len() implies !has_close(all[j]) by {
            if j < batches.len() {
                assert(all[j] == batches[j]);
            }
        }
    }
    if running_after(all) {
        assert(all[batches.len() as int] == events);
        assert forall|j: int| 0 <= j < batches.len() implies !has_close(batches[j]) by {
            assert(all[j] == batches[j]);
        }
    }
}

/// When exactly one batch, the one at index `k`, holds a close request, the
/// loop keeps running through every earlier batch and stops right after
/// handling batch `k`.
pub proof fn lemma_loop_stops_after_close_batch(batches: Seq<Seq<Event>>, k: int)
    requires
        0 <= k < batches.len(),
        has_close(batches[k]),
        forall|j: int| 0 <= j < batches.len() && j != k ==> !has_close(batches[j]),
    ensures
        forall|n: int| 0 <= n <= k ==> running_after(#[trigger] batches.take(n)),
        !running_after(batches.take(k + 1)),
{
    assert forall|n: int| 0 <= n <= k implies running_after(#[trigger] batches.take(n)) by {
        assert forall|j: int| 0 <= j < batches.take(n).len() implies !has_close(
            batches.take(n)[j],
        ) by {
            assert(batches.take(n)[j] == batches[j]);
        }
    }
    assert(batches.take(k + 1)[k] == batches[k]);
}

/// A batch made only of resize events never stops the loop: the loop runs
/// after it exactly when it ran before it.
pub proof fn lemma_resizes_keep_running(batches: Seq<Seq<Event>>, events: Seq<Event>)
    requires
        forall|i: int| 0 <= i < events.len() ==> events[i] is Resized,
    ensures
        !has_close(events),
        running_after(batches.push(events)) == running_after(batches),
{
    lemma_running_after_push(batches, events);
}

} // verus!
