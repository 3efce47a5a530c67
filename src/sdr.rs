//! Lifecycle control of the spectrum-acquisition pipeline.
//!
//! `SDRManager` owns the tuning configuration, the lifecycle state and the
//! receiving end of the frame channel. Starting it hands out an `SDRThread`:
//! the worker's half, holding a snapshot of the configuration and the sending
//! end. The caller runs the worker on a thread of its own: each cycle it
//! computes a power spectrum, turns it into a frame with `SDRThread::frame`,
//! delivers it with `SDRThread::publish` and asks `WorkerStep::after_delivery`
//! whether to go on. Stopping the manager drops the receiving end, so the
//! worker's next delivery fails and its loop ends.
//!
//! The spectrum bin type `B` is left to the transform stage.

use vstd::prelude::*;
use crate::channel::{bounded_channel, send_message, try_receive};
use crossbeam_channel::{Receiver, Sender};
use std::time::Instant;

verus! {

/// Frames the channel buffers before a delivery blocks the worker.
pub const FRAME_QUEUE_CAPACITY: usize = 100;

/// Pause between two worker cycles, in milliseconds.
pub const CYCLE_INTERVAL_MS: u64 = 100;

pub const DEFAULT_FREQUENCY_HZ: u64 = 14200000;

pub const DEFAULT_SAMPLE_RATE_HZ: u32 = 2400000;

/// Default tuner gain in tenths of a decibel (30.0 dB).
pub const DEFAULT_GAIN_TENTH_DB: i32 = 300;

pub const DEFAULT_FFT_SIZE: usize = 1024;

/// Why a controller operation was refused.
#[derive(Debug, Clone, Copy, PartialEq, Eq, Structural)]
pub enum SdrError {
    AlreadyRunning,
    NotRunning,
}

/// Tuning and transform parameters. Gain is kept in tenths of a decibel, the
/// unit RTL-SDR tuners are set in.
#[derive(Debug)]
pub struct SDRConfig {
    pub device: String,
    pub sample_rate: u32,
    pub frequency: u64,
    pub gain_tenth_db: i32,
    pub fft_size: usize,
}

/// The configuration a controller starts with.
pub open spec fn is_default_config(c: SDRConfig) -> bool {
    &&& c.device@ == "rtlsdr"@
    &&& c.sample_rate == DEFAULT_SAMPLE_RATE_HZ
    &&& c.frequency == DEFAULT_FREQUENCY_HZ
    &&& c.gain_tenth_db == DEFAULT_GAIN_TENTH_DB
    &&& c.fft_size == DEFAULT_FFT_SIZE
}

impl SDRConfig {
    pub fn new_default() -> (r: SDRConfig)
        ensures
            is_default_config(r),
    {
        proof {
            reveal_strlit("rtlsdr");
        }
        SDRConfig {
            device: "rtlsdr".to_owned(),
            sample_rate: DEFAULT_SAMPLE_RATE_HZ,
            frequency: DEFAULT_FREQUENCY_HZ,
            gain_tenth_db: DEFAULT_GAIN_TENTH_DB,
            fft_size: DEFAULT_FFT_SIZE,
        }
    }

    /// An independent copy, as handed to a worker.
    pub fn snapshot(&self) -> (r: SDRConfig)
        ensures
            r == *self,
    {
        SDRConfig {
            device: self.device.clone(),
            sample_rate: self.sample_rate,
            frequency: self.frequency,
            gain_tenth_db: self.gain_tenth_db,
            fft_size: self.fft_size,
        }
    }
}

/// One power spectrum, stamped with the frequency the worker was tuned to.
#[derive(Debug)]
pub struct SpectrumData<B> {
    pub frequency: u64,
    pub spectrum: Vec<B>,
    pub timestamp: Instant,
}

/// Read-only projection of a controller's state.
#[derive(Debug, Clone, Copy, PartialEq, Eq, Structural)]
pub struct SDRStatus {
    pub is_running: bool,
    pub frequency: u64,
    pub sample_rate: u32,
    pub gain_tenth_db: i32,
}

/// The abstract state of a controller: whether a worker runs, the live
/// configuration, and the snapshot the last started worker was handed.
pub struct ManagerState {
    pub running: bool,
    pub config: SDRConfig,
    pub worker: SDRConfig,
}

/// The operations that may change a controller's state.
pub enum Command {
    Start,
    Stop,
    SetFrequency(u64),
}

/// The state a command leads to, and what it reports.
pub open spec fn transition(s: ManagerState, c: Command) -> (ManagerState, Result<(), SdrError>) {
    match c {
        Command::Start => if s.running {
            (s, Err(SdrError::AlreadyRunning))
        } else {
            (ManagerState { running: true, config: s.config, worker: s.config }, Ok(()))
        },
        Command::Stop => if !s.running {
            (s, Err(SdrError::NotRunning))
        } else {
            (ManagerState { running: false, ..s }, Ok(()))
        },
        Command::SetFrequency(hz) => if !s.running {
            (s, Err(SdrError::NotRunning))
        } else {
            (
                ManagerState { config: SDRConfig { frequency: hz, ..s.config }, ..s },
                Ok(()),
            )
        },
    }
}

/// The state reached from `s` by a sequence of commands.
pub open spec fn run_commands(s: ManagerState, cmds: Seq<Command>) -> ManagerState
    decreases cmds.len(),
{
    if cmds.len() == 0 {
        s
    } else {
        run_commands(transition(s, cmds[0]).0, cmds.drop_first())
    }
}

/// The configuration a start from `s` hands to its worker: a snapshot of the
/// live one.
pub open spec fn spawned_config(s: ManagerState) -> SDRConfig {
    s.config
}

pub open spec fn status_of(s: ManagerState) -> SDRStatus {
    SDRStatus {
        is_running: s.running,
        frequency: s.config.frequency,
        sample_rate: s.config.sample_rate,
        gain_tenth_db: s.config.gain_tenth_db,
    }
}

/// The worker's half of a running pipeline: the configuration snapshot it was
/// spawned with and the sending end of the frame channel.
#[verifier::reject_recursive_types(B)]
pub struct SDRThread<B> {
    config: SDRConfig,
    spectrum_tx: Sender<SpectrumData<B>>,
}

impl<B> View for SDRThread<B> {
    type V = SDRConfig;

    /// The worker's configuration snapshot.
    closed spec fn view(&self) -> SDRConfig {
        self.config
    }
}

/// What a worker does after a delivery attempt.
#[derive(Debug, Clone, Copy, PartialEq, Eq, Structural)]
pub enum WorkerStep {
    /// Sleep one cycle interval, then produce the next frame.
    Continue,
    /// The controller is gone or stopped: end the loop.
    Exit,
}

impl WorkerStep {
    /// Delivery failing is the one signal that ends a worker.
    pub fn after_delivery<T>(delivered: &Result<(), T>) -> (r: WorkerStep)
        ensures
            r == WorkerStep::Continue <==> delivered is Ok,
    {
        match delivered {
            Ok(()) => WorkerStep::Continue,
            Err(_) => WorkerStep::Exit,
        }
    }
}

impl<B> SDRThread<B> {
    pub fn config(&self) -> (r: &SDRConfig)
        ensures
            *r == self@,
    {
        &self.config
    }

    /// The frame for one cycle's spectrum: it carries the snapshot's
    /// frequency, whatever the controller has been retuned to since.
    pub fn frame(&self, spectrum: Vec<B>, timestamp: Instant) -> (r: SpectrumData<B>)
        requires
            spectrum@.len() == self@.fft_size,
        ensures
            r.frequency == self@.frequency,
            r.spectrum == spectrum,
            r.spectrum@.len() == self@.fft_size,
            r.timestamp == timestamp,
    {
        SpectrumData { frequency: self.config.frequency, spectrum, timestamp }
    }

    /// Puts a frame on the channel, waiting while it is full. Fails, handing
    /// the frame back, once the controller has dropped the receiving end.
    pub fn publish(&self, frame: SpectrumData<B>) -> (r: Result<(), SpectrumData<B>>)
        requires
            frame.spectrum@.len() == self@.fft_size,
            frame.frequency == self@.frequency,
        ensures
            r matches Err(f) ==> f == frame,
    {
        send_message(&self.spectrum_tx, frame)
    }
}

/// The pipeline controller. Callers that share it serialize access through
/// one lock around it.
#[verifier::reject_recursive_types(B)]
pub struct SDRManager<B> {
    config: SDRConfig,
    worker: SDRConfig,
    is_running: bool,
    spectrum_rx: Option<Receiver<SpectrumData<B>>>,
}

impl<B> View for SDRManager<B> {
    type V = ManagerState;

    closed spec fn view(&self) -> ManagerState {
        ManagerState { running: self.is_running, config: self.config, worker: self.worker }
    }
}

impl<B> SDRManager<B> {
    /// The receiving end of the running worker's frame channel.
    pub closed spec fn receiver(&self) -> Option<Receiver<SpectrumData<B>>> {
        self.spectrum_rx
    }

    /// Running exactly when a frame channel is open.
    #[verifier::type_invariant]
    closed spec fn channel_matches_state(self) -> bool {
        self.is_running == self.spectrum_rx.is_some()
    }

    /// An idle controller with the default configuration.
    pub fn new() -> (r: SDRManager<B>)
        ensures
            !r@.running,
            is_default_config(r@.config),
    {
        SDRManager {
            config: SDRConfig::new_default(),
            worker: SDRConfig::new_default(),
            is_running: false,
            spectrum_rx: None,
        }
    }

    /// Opens a fresh frame channel and returns the worker's half, bound to a
    /// snapshot of the current configuration. Refused while running.
    pub fn start(&mut self) -> (r: Result<SDRThread<B>, SdrError>)
        ensures
            final(self)@ == transition(old(self)@, Command::Start).0,
            r matches Ok(w) ==> transition(old(self)@, Command::Start).1 is Ok
                && w@ == spawned_config(old(self)@),
            r matches Err(e) ==> transition(old(self)@, Command::Start).1 == Err::<(), SdrError>(e)
                && final(self).receiver() == old(self).receiver(),
    {
        if self.is_running {
            return Err(SdrError::AlreadyRunning);
        }
        let config = self.config.snapshot();
        let (spectrum_tx, spectrum_rx) = bounded_channel(FRAME_QUEUE_CAPACITY);
        *self = SDRManager {
            config: self.config.snapshot(),
            worker: self.config.snapshot(),
            is_running: true,
            spectrum_rx: Some(spectrum_rx),
        };
        Ok(SDRThread { config, spectrum_tx })
    }

    /// Drops the receiving end, which ends the worker at its next delivery,
    /// and returns to idle at once without waiting for it.
    pub fn stop(&mut self) -> (r: Result<(), SdrError>)
        ensures
            (final(self)@, r) == transition(old(self)@, Command::Stop),
            final(self).receiver() is None,
    {
        proof {
            use_type_invariant(&*self);
        }
        if !self.is_running {
            return Err(SdrError::NotRunning);
        }
        *self = SDRManager {
            config: self.config.snapshot(),
            worker: self.worker.snapshot(),
            is_running: false,
            spectrum_rx: None,
        };
        Ok(())
    }

    /// Changes the live configuration's frequency. The running worker keeps
    /// its snapshot: its frames report the old frequency until a restart.
    pub fn set_frequency(&mut self, freq: u64) -> (r: Result<(), SdrError>)
        ensures
            (final(self)@, r) == transition(old(self)@, Command::SetFrequency(freq)),
            final(self).receiver() == old(self).receiver(),
    {
        if !self.is_running {
            return Err(SdrError::NotRunning);
        }
        proof {
            use_type_invariant(&*self);
        }
        self.config.frequency = freq;
        Ok(())
    }

    pub fn get_status(&self) -> (r: SDRStatus)
        ensures
            r == status_of(self@),
    {
        SDRStatus {
            is_running: self.is_running,
            frequency: self.config.frequency,
            sample_rate: self.config.sample_rate,
            gain_tenth_db: self.config.gain_tenth_db,
        }
    }

    /// The oldest queued frame, if any, without waiting; nothing while idle.
    /// A frame holds as many bins as the running worker's transform size and
    /// the frequency it was started with, whatever the controller has been
    /// retuned to since. A frame that does not (no worker half sends one) is
    /// discarded.
    pub fn get_spectrum_data(&self) -> (r: Option<SpectrumData<B>>)
        ensures
            !self@.running ==> r is None,
            r matches Some(d) ==> d.spectrum@.len() == self@.worker.fft_size
                && d.frequency == self@.worker.frequency,
    {
        if !self.is_running {
            return None;
        }
        match &self.spectrum_rx {
            Some(rx) => match try_receive(rx) {
                Some(d) => if d.spectrum.len() == self.worker.fft_size && d.frequency
                    == self.worker.frequency {
                    Some(d)
                } else {
                    None
                },
                None => None,
            },
            None => None,
        }
    }
}

/// An idle controller starts once: the first start succeeds, and a second
/// one without a stop in between is refused with `AlreadyRunning` and changes
/// nothing.
pub proof fn lemma_start_succeeds_once(s: ManagerState)
    requires
        !s.running,
    ensures
        transition(s, Command::Start).1 is Ok,
        transition(s, Command::Start).0.running,
        transition(transition(s, Command::Start).0, Command::Start).1 == Err::<(), SdrError>(
            SdrError::AlreadyRunning,
        ),
        transition(transition(s, Command::Start).0, Command::Start).0 == transition(
            s,
            Command::Start,
        ).0,
{
}

/// A stop on an idle controller, whether never started or already stopped,
/// is refused with `NotRunning`; in particular a stop right after any stop is.
pub proof fn lemma_stop_when_idle(s: ManagerState)
    ensures
        !s.running ==> transition(s, Command::Stop) == (s, Err::<(), SdrError>(
            SdrError::NotRunning,
        )),
        transition(transition(s, Command::Stop).0, Command::Stop).1 == Err::<(), SdrError>(
            SdrError::NotRunning,
        ),
{
}

/// Whatever commands came before, retuning an idle controller is refused
/// with `NotRunning` and leaves it as it was.
pub proof fn lemma_retune_when_idle(s: ManagerState, history: Seq<Command>, hz: u64)
    requires
        !run_commands(s, history).running,
    ensures
        transition(run_commands(s, history), Command::SetFrequency(hz)) == (
            run_commands(s, history),
            Err::<(), SdrError>(SdrError::NotRunning),
        ),
{
}

/// Retuning a running controller shows in its status at once, but the worker
/// spawned by the start keeps the frequency of its snapshot, which is what the
/// frames the controller returns report. Only a worker spawned after a stop and a new start is handed
/// the new frequency.
pub proof fn lemma_retune_reaches_worker_on_restart(s: ManagerState, hz: u64)
    requires
        !s.running,
    ensures
        ({
            let started = transition(s, Command::Start).0;
            let retuned = transition(started, Command::SetFrequency(hz));
            let stopped = transition(retuned.0, Command::Stop).0;
            &&& retuned.1 is Ok
            &&& status_of(retuned.0).frequency == hz
            &&& status_of(retuned.0).is_running
            &&& started.worker == spawned_config(s)
            &&& retuned.0.worker.frequency == s.config.frequency
            &&& !stopped.running
            &&& transition(stopped, Command::Start).1 is Ok
            &&& transition(stopped, Command::Start).0.worker.frequency == hz
        }),
{
}

/// Once started from `s`, a controller's worker snapshot stays the
/// configuration `s` had, through any retunes and stops, until the next
/// start: every frame it then returns holds as many bins as `s`'s transform
/// size and carries `s`'s frequency.
pub proof fn lemma_worker_snapshot_kept(s: ManagerState, cmds: Seq<Command>)
    requires
        !s.running,
        forall|i: int| 0 <= i < cmds.len() ==> !(cmds[i] is Start),
    ensures
        run_commands(transition(s, Command::Start).0, cmds).worker == s.config,
        run_commands(transition(s, Command::Start).0, cmds).worker.fft_size == s.config.fft_size,
        run_commands(transition(s, Command::Start).0, cmds).worker.frequency == s.config.frequency,
{
    lemma_no_start_keeps_worker(transition(s, Command::Start).0, cmds);
}

proof fn lemma_no_start_keeps_worker(t: ManagerState, cmds: Seq<Command>)
    requires
        forall|i: int| 0 <= i < cmds.len() ==> !(cmds[i] is Start),
    ensures
        run_commands(t, cmds).worker == t.worker,
    decreases cmds.len(),
{
    if cmds.len() > 0 {
        let rest = cmds.drop_first();
        assert forall|i: int| 0 <= i < rest.len() implies !(rest[i] is Start) by {
            assert(rest[i] == cmds[i + 1]);
        }
        lemma_no_start_keeps_worker(transition(t, cmds[0]).0, rest);
    }
}

/// Successful starts minus successful stops along a sequence of commands:
/// the workers spawned whose channel is still open.
pub open spec fn open_workers(s: ManagerState, cmds: Seq<Command>) -> int
    decreases cmds.len(),
{
    if cmds.len() == 0 {
        0
    } else {
        let (next, res) = transition(s, cmds[0]);
        let here: int = match (cmds[0], res) {
            (Command::Start, Ok(())) => 1,
            (Command::Stop, Ok(())) => -1,
            _ => 0,
        };
        here + open_workers(next, cmds.drop_first())
    }
}

/// From an idle controller, whatever commands follow, the workers spawned
/// and not yet stopped number one while it runs and none while it is idle:
/// never two at once.
pub proof fn lemma_at_most_one_worker(s: ManagerState, cmds: Seq<Command>)
    requires
        !s.running,
    ensures
        open_workers(s, cmds) == if run_commands(s, cmds).running { 1int } else { 0int },
{
    lemma_open_workers_track_state(s, cmds);
}

proof fn lemma_open_workers_track_state(s: ManagerState, cmds: Seq<Command>)
    ensures
        open_workers(s, cmds) == (if run_commands(s, cmds).running { 1int } else { 0int }) - (
        if s.running { 1int } else { 0int }),
    decreases cmds.len(),
{
    if cmds.len() > 0 {
        lemma_open_workers_track_state(transition(s, cmds[0]).0, cmds.drop_first());
    }
}

} // verus!
