//! The poll loop's control plane.
//!
//! The engine runs as a worker with two states, running and stopped, and a
//! cursor: the `video_seq` of the most recently delivered-or-observed record.
//! Each cycle the worker first checks the control channel — a stop request
//! ends it for good — then processes the outcome of one fetch: a transient
//! fetch failure is a no-op for the cycle, a fetched page is parsed into a
//! snapshot, the new records are delivered to the callback oldest first, and
//! the cursor advances to the freshest record of the snapshot.
//!
//! The fetch itself and the worker thread are the surrounding program's
//! business; the decisions live here.

use vstd::prelude::*;

use crate::detect::detect_new;
use crate::extract::candidates_of;
use crate::extract::snapshot_from_html;
use crate::extract::snapshot_spec;
use crate::record::VLiveVideo;

verus! {

/// One signal on the control channel.  `Start` is sent once by the
/// constructor and merely acknowledged; `Stop` ends the worker.
#[derive(Debug, Clone, Copy, PartialEq, Eq, Structural)]
pub enum ControlSignal {
    Start,
    Stop,
}

/// What one fetch of the feed page came to: the raw page text, or a
/// transient failure (network error, bad status, timeout) that skips the
/// cycle and is never fatal.
#[derive(Debug)]
pub enum FetchOutcome {
    TransientError,
    Content(String),
}

/// Implement this in your own listener: the engine calls `on_new` once per
/// newly discovered record, oldest first, synchronously from its single
/// worker, so no two calls ever overlap.
pub trait VLiveCallback: Send + 'static {
    fn on_new(&self, video: VLiveVideo);
}

#[verifier::external_type_specification]
#[verifier::external_body]
#[verifier::reject_recursive_types(T)]
pub struct ExSender<T>(std::sync::mpsc::Sender<T>);

#[verifier::external_type_specification]
#[verifier::external_body]
#[verifier::reject_recursive_types(T)]
pub struct ExReceiver<T>(std::sync::mpsc::Receiver<T>);

/// Relies on std's `mpsc::channel`: a fresh sender-receiver pair.
#[verifier::external_body]
fn control_channel() -> (r: (
    std::sync::mpsc::Sender<ControlSignal>,
    std::sync::mpsc::Receiver<ControlSignal>,
)) {
    std::sync::mpsc::channel()
}

/// Relies on std's `Sender::send`: delivers the signal unless the receiver
/// is gone; either way it returns, and the failure is swallowed here.
#[verifier::external_body]
fn send_signal(tx: &std::sync::mpsc::Sender<ControlSignal>, signal: ControlSignal) -> (delivered:
    bool) {
    tx.send(signal).is_ok()
}

/// Relies on std's `Receiver::try_recv`: the next pending signal without
/// blocking, or `None` when the channel is empty or the sender is gone.
#[verifier::external_body]
fn try_recv_signal(rx: &std::sync::mpsc::Receiver<ControlSignal>) -> (signal: Option<
    ControlSignal,
>) {
    rx.try_recv().ok()
}

/// The handle the caller keeps to end the engine: single use, and harmless
/// even when the worker is already gone.
pub struct VLiveStopper {
    tx: std::sync::mpsc::Sender<ControlSignal>,
}

impl VLiveStopper {
    /// Request that the worker stop at the top of its next cycle.  Sending to
    /// a worker that already exited fails silently; this never panics or
    /// blocks.
    pub fn stop(self) {
        let _ = send_signal(&self.tx, ControlSignal::Stop);
    }
}

/// The worker's whole state: the callback, the receiving end of the control
/// channel, the cursor, and whether it is still running.
pub struct Worker<CB: VLiveCallback> {
    /// Called once per new record.
    pub callback: CB,
    /// `video_seq` of the most recently delivered-or-observed record;
    /// 0 until a first snapshot is seen.
    pub cursor: u32,
    /// False once a stop request was consumed: stopped is terminal.
    pub running: bool,
    /// The receiving end of the control channel.
    pub rx: std::sync::mpsc::Receiver<ControlSignal>,
}

impl<CB: VLiveCallback> Worker<CB> {
    /// What one control signal, or the lack of one, does to the worker:
    /// `Stop` ends it for good, anything else leaves it as it was.
    pub fn apply_signal(&mut self, signal: Option<ControlSignal>) -> (cont: bool)
        ensures
            final(self).cursor == old(self).cursor,
            final(self).callback == old(self).callback,
            final(self).running == (old(self).running && signal != Some(ControlSignal::Stop)),
            cont == final(self).running,
    {
        match signal {
            Some(ControlSignal::Stop) => {
                self.running = false;
            },
            _ => (),
        }
        self.running
    }

    /// The non-blocking control check at the top of a cycle: consume a
    /// pending signal, if any, and report whether the worker still runs.
    /// Once stopped it never runs again, whatever is on the channel.
    pub fn check_control(&mut self) -> (cont: bool)
        ensures
            final(self).cursor == old(self).cursor,
            final(self).callback == old(self).callback,
            cont == final(self).running,
            final(self).running ==> old(self).running,
    {
        let signal = try_recv_signal(&self.rx);
        self.apply_signal(signal)
    }

    /// Hand the records to the callback one at a time, in the order given:
    /// the engine's only delivery path, synchronous on the caller's thread.
    fn deliver(&self, records: Vec<VLiveVideo>) {
        let mut records = records;
        while records.len() > 0
            decreases records@.len(),
        {
            let record = records.remove(0);
            self.callback.on_new(record);
        }
    }

    /// Process the outcome of one fetch cycle.  A transient error changes
    /// nothing.  A fetched page is parsed into a snapshot — freshest first,
    /// unparseable nodes skipped — whose new records relative to the cursor
    /// are delivered oldest first; then the cursor advances to the freshest
    /// record's `video_seq`, even when nothing new was delivered, and to
    /// nothing on an empty snapshot.  A stopped worker does nothing.
    pub fn process_outcome(&mut self, outcome: FetchOutcome)
        ensures
            final(self).running == old(self).running,
            final(self).callback == old(self).callback,
            final(self).cursor == (if old(self).running {
                match outcome {
                    FetchOutcome::TransientError => old(self).cursor,
                    FetchOutcome::Content(html) => {
                        let snapshot = snapshot_spec(candidates_of(html@));
                        if snapshot.len() == 0 {
                            old(self).cursor
                        } else {
                            snapshot[0].video_seq
                        }
                    },
                }
            } else {
                old(self).cursor
            }),
    {
        if !self.running {
            return ;
        }
        let html = match outcome {
            FetchOutcome::Content(html) => html,
            FetchOutcome::TransientError => {
                return ;
            },
        };
        let snapshot = snapshot_from_html(html.as_str());
        if snapshot.len() == 0 {
            return ;
        }
        let freshest_seq = snapshot[0].video_seq;
        proof {
            assert(crate::record::video_views(snapshot@)[0] == snapshot@[0]@);
        }
        let fresh = detect_new(snapshot, self.cursor);
        self.deliver(fresh);
        self.cursor = freshest_seq;
    }
}

/// The engine as the caller builds it: a callback, a poll interval, and the
/// two ends of the control channel.  Start it by taking it apart with
/// [`VLive::into_parts`] and driving the worker one cycle at a time.
pub struct VLive<CB: VLiveCallback> {
    callback: CB,
    wait: core::time::Duration,
    tx: std::sync::mpsc::Sender<ControlSignal>,
    rx: std::sync::mpsc::Receiver<ControlSignal>,
}

impl<CB: VLiveCallback> VLive<CB> {
    /// The callback the engine was built with.
    pub closed spec fn spec_callback(&self) -> CB {
        self.callback
    }

    /// The poll interval the engine was built with.
    pub closed spec fn spec_wait(&self) -> core::time::Duration {
        self.wait
    }

    /// New listener.  `callback` is your implementation of [`VLiveCallback`];
    /// `wait` is how long to pause between polls — 2 to 10 seconds is a
    /// recommended value.
    pub fn new(callback: CB, wait: core::time::Duration) -> (r: Self)
        ensures
            r.spec_callback() == callback,
            r.spec_wait() == wait,
    {
        let (tx, rx) = control_channel();
        VLive { callback, wait, tx, rx }
    }

    /// Take the engine apart to run it: the worker — running, cursor 0,
    /// with an initial `Start` already on its channel — the stop handle,
    /// and the poll interval.
    pub fn into_parts(self) -> (r: (Worker<CB>, VLiveStopper, core::time::Duration))
        ensures
            r.0.callback == self.spec_callback(),
            r.0.cursor == 0,
            r.0.running,
            r.2 == self.spec_wait(),
    {
        let VLive { callback, wait, tx, rx } = self;
        let _ = send_signal(&tx, ControlSignal::Start);
        (Worker { callback, cursor: 0, running: true, rx }, VLiveStopper { tx }, wait)
    }
}

} // verus!
