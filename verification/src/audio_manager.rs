//! The engine: the selected endpoints and the lifecycle of one run.
//!
//! The engine decides; its caller acts. Starting a run hands back what the
//! supervising context needs, and stopping one is a sequence of steps, each
//! of which tells the caller either how it ended or how long to sleep before
//! it reports again whether the context has finished.

use crate::delay_buffer::{
    buffer_capacity, latency_fits, latency_samples, silence, DelayBuffer,
};
use crate::device::{
    resolves_to, resolves_to_nothing, select, DeviceClass, Endpoint, EndpointView,
};
use crate::error::EngineError;
use crate::stopper::Stopper;
use vstd::prelude::*;

verus! {

/// The time to sleep between two looks at a run, in milliseconds.
pub const AUDIO_STREAMER_INTERVAL_MILLIS: u64 = 15;

/// The longest that a stop waits for a run to end, in milliseconds.
pub const AUDIO_STREAMER_TIMEOUT_MILLIS: u64 = 10000;

/// Where the engine is in the lifecycle of a run.
#[derive(Clone, Copy, Debug, PartialEq, Eq, Structural)]
pub enum RunState {
    /// No run is live.
    Idle,
    /// A run was started and no stop has been requested.
    Running,
    /// A stop was requested and the run has not yet confirmed that it ended.
    Stopping,
    /// A stop gave up waiting. Whether the run still lives is unknown.
    StopTimedOut,
}

/// The one stream configuration that both directions of a run use.
#[derive(Clone, Copy, Debug, PartialEq, Eq, Structural)]
pub struct StreamConfig {
    pub channels: u16,
    pub sample_rate: u32,
    /// The fixed buffer size, in frames.
    pub buffer_size: u32,
}

/// What one step of stopping tells the caller.
#[derive(Clone, Copy, Debug, PartialEq, Eq)]
pub enum StopProgress {
    /// The stop is over, with this result.
    Finished(Result<(), EngineError>),
    /// Sleep for this many milliseconds, then take the next step.
    Wait(u64),
}

/// What a started run is made of, for the supervising context to take over.
pub struct RunPlan {
    /// The configuration to open both streams with.
    pub config: StreamConfig,
    /// The delay buffer between the two streams, not yet split.
    pub buffer: DelayBuffer,
    /// The cancellation signal of this run.
    pub stopper: Stopper,
}

/// The engine as the contracts see it.
pub struct EngineView {
    /// The selected capture endpoint.
    pub input: Option<EndpointView>,
    /// The selected render endpoint.
    pub output: Option<EndpointView>,
    pub state: RunState,
    /// The cancellation signal of the recorded run.
    pub signal: Option<Stopper>,
    /// For how long the stop under way has slept.
    pub waited_ms: nat,
}

/// The selected endpoints and the state of the run, if there is one.
pub struct AudioStreamThreadManager {
    input_device: Option<Endpoint>,
    output_device: Option<Endpoint>,
    state: RunState,
    stopper: Option<Stopper>,
    waited_ms: u64,
}

/// The view of an endpoint, if there is one.
pub open spec fn endpoint_view(endpoint: Option<Endpoint>) -> Option<EndpointView> {
    match endpoint {
        Some(e) => Some(e@),
        None => None,
    }
}

/// The engine after a selection for `class` that ended with `selected`.
pub open spec fn with_endpoint(
    engine: EngineView,
    class: DeviceClass,
    selected: Option<EndpointView>,
) -> EngineView {
    match class {
        DeviceClass::Capture => EngineView {
            input: selected,
            output: engine.output,
            state: engine.state,
            signal: engine.signal,
            waited_ms: engine.waited_ms,
        },
        DeviceClass::Render => EngineView {
            input: engine.input,
            output: selected,
            state: engine.state,
            signal: engine.signal,
            waited_ms: engine.waited_ms,
        },
    }
}

/// What holds of every engine: a cancellation signal exists exactly while a
/// run may be live, and the time slept is counted only while a stop is under
/// way, up to the step that gives up.
pub open spec fn valid(engine: EngineView) -> bool {
    &&& engine.state is Idle <==> engine.signal is None
    &&& engine.state is Stopping || engine.waited_ms == 0
    &&& engine.waited_ms <= AUDIO_STREAMER_TIMEOUT_MILLIS + AUDIO_STREAMER_INTERVAL_MILLIS
}

/// The endpoint that a selection by `name` records: the name, and no format
/// yet.
pub open spec fn selected_by(name: Seq<char>) -> EndpointView {
    EndpointView { name, format: None }
}

/// The engine after a run with the cancellation signal `signal` has
/// started.
pub open spec fn started(engine: EngineView, signal: Stopper) -> EngineView {
    EngineView {
        input: engine.input,
        output: engine.output,
        state: RunState::Running,
        signal: Some(signal),
        waited_ms: 0,
    }
}

/// One step of stopping: what the caller is told and what the engine
/// becomes, given whether the supervising context has finished.
pub open spec fn stop_step(engine: EngineView, finished: bool) -> (StopProgress, EngineView) {
    if engine.state is Idle {
        (StopProgress::Finished(Ok(())), engine)
    } else {
        let waited = if engine.state is Stopping {
            engine.waited_ms
        } else {
            0
        };
        if finished {
            (
                StopProgress::Finished(Ok(())),
                EngineView {
                    input: engine.input,
                    output: engine.output,
                    state: RunState::Idle,
                    signal: None,
                    waited_ms: 0,
                },
            )
        } else if waited > AUDIO_STREAMER_TIMEOUT_MILLIS {
            (
                StopProgress::Finished(Err(EngineError::StopTimeout)),
                EngineView {
                    input: engine.input,
                    output: engine.output,
                    state: RunState::StopTimedOut,
                    signal: engine.signal,
                    waited_ms: 0,
                },
            )
        } else {
            (
                StopProgress::Wait(AUDIO_STREAMER_INTERVAL_MILLIS),
                EngineView {
                    input: engine.input,
                    output: engine.output,
                    state: RunState::Stopping,
                    signal: engine.signal,
                    waited_ms: (waited + AUDIO_STREAMER_INTERVAL_MILLIS) as nat,
                },
            )
        }
    }
}

impl View for AudioStreamThreadManager {
    type V = EngineView;

    closed spec fn view(&self) -> EngineView {
        EngineView {
            input: endpoint_view(self.input_device),
            output: endpoint_view(self.output_device),
            state: self.state,
            signal: self.stopper,
            waited_ms: self.waited_ms as nat,
        }
    }
}

impl AudioStreamThreadManager {
    /// The engine is valid: see `valid`.
    pub open spec fn wf(&self) -> bool {
        valid(self@)
    }

    /// An idle engine with the given endpoints, if any, selected.
    pub fn new(input_device: Option<Endpoint>, output_device: Option<Endpoint>) -> (engine: Self)
        ensures
            engine.wf(),
            engine@ == (EngineView {
                input: endpoint_view(input_device),
                output: endpoint_view(output_device),
                state: RunState::Idle,
                signal: None,
                waited_ms: 0,
            }),
    {
        AudioStreamThreadManager {
            input_device,
            output_device,
            state: RunState::Idle,
            stopper: None,
            waited_ms: 0,
        }
    }

    /// Selects the endpoint of `class` by name from what the caller
    /// enumerated. The first device that reported exactly `name` becomes the
    /// endpoint, and its place in the enumeration is returned. If there is
    /// none, or the enumeration failed, the class is left without an
    /// endpoint.
    pub fn select_device(
        &mut self,
        class: DeviceClass,
        enumeration: &Option<Vec<Option<String>>>,
        name: String,
    ) -> (found: Result<usize, EngineError>)
        requires
            old(self).wf(),
        ensures
            final(self).wf(),
            found matches Ok(i) ==> resolves_to(*enumeration, name@, i as int) && final(self)@
                == with_endpoint(old(self)@, class, Some(selected_by(name@))),
            found matches Err(e) ==> e == EngineError::DeviceNotFound && final(self)@
                == with_endpoint(old(self)@, class, None),
            found is Err <==> resolves_to_nothing(*enumeration, name@),
    {
        let found = select(enumeration, &name);
        let selected = match found {
            Ok(_) => Some(Endpoint::new(name)),
            Err(_) => None,
        };
        match class {
            DeviceClass::Capture => {
                self.input_device = selected;
            },
            DeviceClass::Render => {
                self.output_device = selected;
            },
        }
        found
    }

    /// Selects the capture endpoint by name: see `select_device`.
    pub fn set_input_device(
        &mut self,
        enumeration: &Option<Vec<Option<String>>>,
        input_device_name: String,
    ) -> (found: Result<usize, EngineError>)
        requires
            old(self).wf(),
        ensures
            final(self).wf(),
            found matches Ok(i) ==> resolves_to(*enumeration, input_device_name@, i as int)
                && final(self)@ == with_endpoint(
                old(self)@,
                DeviceClass::Capture,
                Some(selected_by(input_device_name@)),
            ),
            found matches Err(e) ==> e == EngineError::DeviceNotFound && final(self)@
                == with_endpoint(old(self)@, DeviceClass::Capture, None),
            found is Err <==> resolves_to_nothing(*enumeration, input_device_name@),
    {
        self.select_device(DeviceClass::Capture, enumeration, input_device_name)
    }

    /// Selects the render endpoint by name: see `select_device`.
    pub fn set_output_device(
        &mut self,
        enumeration: &Option<Vec<Option<String>>>,
        output_device_name: String,
    ) -> (found: Result<usize, EngineError>)
        requires
            old(self).wf(),
        ensures
            final(self).wf(),
            found matches Ok(i) ==> resolves_to(*enumeration, output_device_name@, i as int)
                && final(self)@ == with_endpoint(
                old(self)@,
                DeviceClass::Render,
                Some(selected_by(output_device_name@)),
            ),
            found matches Err(e) ==> e == EngineError::DeviceNotFound && final(self)@
                == with_endpoint(old(self)@, DeviceClass::Render, None),
            found is Err <==> resolves_to_nothing(*enumeration, output_device_name@),
    {
        self.select_device(DeviceClass::Render, enumeration, output_device_name)
    }

    /// Starts a run with a latency of `latency_frames` frames. Without both
    /// endpoints it fails and changes nothing. Otherwise it builds the one
    /// configuration for both streams and the delay buffer, makes a fresh
    /// cancellation signal, and records the run; a run that was still
    /// recorded is told to stop and is replaced.
    pub fn run(
        &mut self,
        latency_frames: usize,
        sample_rate: u32,
        channels: u16,
        buffer_size: u32,
    ) -> (outcome: Result<RunPlan, EngineError>)
        requires
            old(self).wf(),
            old(self)@.input is Some && old(self)@.output is Some ==> latency_fits(
                latency_frames as nat,
                channels as nat,
            ),
        ensures
            final(self).wf(),
            outcome is Err <==> old(self)@.input is None || old(self)@.output is None,
            outcome matches Err(e) ==> e == EngineError::EndpointMissing && final(self)@ == old(
                self,
            )@,
            outcome matches Ok(plan) ==> {
                &&& plan.config == (StreamConfig { channels, sample_rate, buffer_size })
                &&& plan.buffer.wf()
                &&& plan.buffer.spec_capacity() == buffer_capacity(
                    latency_frames as nat,
                    channels as nat,
                )
                &&& plan.buffer@ == silence(
                    latency_samples(latency_frames as nat, channels as nat),
                )
                &&& final(self)@ == started(old(self)@, plan.stopper)
            },
    {
        if self.input_device.is_none() || self.output_device.is_none() {
            return Err(EngineError::EndpointMissing);
        }
        let config = StreamConfig { channels, sample_rate, buffer_size };
        let buffer = DelayBuffer::new(latency_frames, channels);
        let stopper = Stopper::new();
        let shared = stopper.share();
        match &self.stopper {
            Some(previous) => previous.send_stop_signal(),
            None => {},
        }
        self.stopper = Some(stopper);
        self.state = RunState::Running;
        self.waited_ms = 0;
        Ok(RunPlan { config, buffer, stopper: shared })
    }

    /// Takes one step of stopping the run, given whether its supervising
    /// context has finished. With no run it succeeds and changes nothing.
    /// Otherwise the first step sets the cancellation signal; a step that
    /// finds the context finished forgets the run and succeeds; one that
    /// finds it still live asks for another sleep, until more than the
    /// allowed time has been slept, and then gives up with `StopTimeout`.
    pub fn stop(&mut self, finished: bool) -> (progress: StopProgress)
        requires
            old(self).wf(),
        ensures
            final(self).wf(),
            (progress, final(self)@) == stop_step(old(self)@, finished),
    {
        match self.state {
            RunState::Idle => {
                return StopProgress::Finished(Ok(()));
            },
            RunState::Stopping => {},
            RunState::Running | RunState::StopTimedOut => {
                match &self.stopper {
                    Some(stopper) => stopper.send_stop_signal(),
                    None => {},
                }
                self.state = RunState::Stopping;
            },
        }
        if finished {
            self.stopper = None;
            self.state = RunState::Idle;
            self.waited_ms = 0;
            StopProgress::Finished(Ok(()))
        } else if self.waited_ms > AUDIO_STREAMER_TIMEOUT_MILLIS {
            self.state = RunState::StopTimedOut;
            self.waited_ms = 0;
            StopProgress::Finished(Err(EngineError::StopTimeout))
        } else {
            self.waited_ms = self.waited_ms + AUDIO_STREAMER_INTERVAL_MILLIS;
            StopProgress::Wait(AUDIO_STREAMER_INTERVAL_MILLIS)
        }
    }

    /// Where the engine is in the lifecycle of a run.
    pub fn state(&self) -> (state: RunState)
        ensures
            state == self@.state,
    {
        self.state
    }

    /// The selected capture endpoint.
    pub fn input_device(&self) -> (endpoint: Option<&Endpoint>)
        ensures
            endpoint_view_of(endpoint) == self@.input,
    {
        self.input_device.as_ref()
    }

    /// The selected render endpoint.
    pub fn output_device(&self) -> (endpoint: Option<&Endpoint>)
        ensures
            endpoint_view_of(endpoint) == self@.output,
    {
        self.output_device.as_ref()
    }
}

/// The engine after `sleeps` steps of stopping, each of which found the
/// supervising context still live.
pub open spec fn after_sleeps(engine: EngineView, sleeps: nat) -> EngineView
    decreases sleeps,
{
    if sleeps == 0 {
        engine
    } else {
        stop_step(after_sleeps(engine, (sleeps - 1) as nat), false).1
    }
}

/// Stopping an idle engine succeeds and leaves it as it was, whatever is
/// reported of a supervising context.
pub proof fn stop_when_idle_changes_nothing(engine: EngineView, finished: bool)
    requires
        engine.state is Idle,
    ensures
        stop_step(engine, finished) == (StopProgress::Finished(Ok(())), engine),
{
}

/// Stopping an idle engine twice in a row succeeds both times and leaves it
/// as it was.
pub proof fn stop_twice_when_idle(engine: EngineView, first: bool, second: bool)
    requires
        engine.state is Idle,
    ensures
        stop_step(engine, first).0 == StopProgress::Finished(Ok(())),
        stop_step(stop_step(engine, first).1, second) == (
            StopProgress::Finished(Ok(())),
            engine,
        ),
{
}

/// A step of stopping that finds the supervising context finished ends in
/// `Idle` with success and with the run's signal forgotten, and a later
/// start finds the endpoints as they were.
pub proof fn stop_of_a_finished_run_ends_idle(engine: EngineView)
    requires
        valid(engine),
    ensures
        stop_step(engine, true).0 == StopProgress::Finished(Ok(())),
        stop_step(engine, true).1.state is Idle,
        stop_step(engine, true).1.signal is None,
        stop_step(engine, true).1.input == engine.input,
        stop_step(engine, true).1.output == engine.output,
{
}

/// A step of stopping that finds the supervising context still live keeps
/// the signal of the run and both endpoints.
pub proof fn an_unfinished_stop_keeps_the_run(engine: EngineView)
    ensures
        stop_step(engine, false).1.signal == engine.signal,
        stop_step(engine, false).1.input == engine.input,
        stop_step(engine, false).1.output == engine.output,
{
}

/// Every step of stopping leaves a valid engine valid.
pub proof fn stop_keeps_the_engine_valid(engine: EngineView, finished: bool)
    requires
        valid(engine),
    ensures
        valid(stop_step(engine, finished).1),
{
}

/// A selection changes the endpoint of its class and nothing else: the
/// other endpoint, the state of the run, its signal and the time slept stay.
pub proof fn selection_leaves_the_rest(
    engine: EngineView,
    class: DeviceClass,
    selected: Option<EndpointView>,
)
    ensures
        with_endpoint(engine, class, selected).state == engine.state,
        with_endpoint(engine, class, selected).signal == engine.signal,
        with_endpoint(engine, class, selected).waited_ms == engine.waited_ms,
        class is Capture ==> with_endpoint(engine, class, selected).output == engine.output
            && with_endpoint(engine, class, selected).input == selected,
        class is Render ==> with_endpoint(engine, class, selected).input == engine.input
            && with_endpoint(engine, class, selected).output == selected,
{
}

/// A run that starts records its own signal and leaves both endpoints as
/// they were.
pub proof fn a_started_run_records_its_signal(engine: EngineView, signal: Stopper)
    ensures
        started(engine, signal).state is Running,
        started(engine, signal).signal == Some(signal),
        started(engine, signal).input == engine.input,
        started(engine, signal).output == engine.output,
        started(engine, signal).waited_ms == 0,
{
}

/// While the supervising context stays live, a stop of a started run asks
/// for a sleep as long as no more than the allowed time has been slept, and
/// has then slept the interval once for each step so far.
pub proof fn stop_keeps_count(engine: EngineView, sleeps: nat)
    requires
        engine.state is Running || engine.state is StopTimedOut,
        0 < sleeps,
        (sleeps - 1) * AUDIO_STREAMER_INTERVAL_MILLIS <= AUDIO_STREAMER_TIMEOUT_MILLIS,
    ensures
        after_sleeps(engine, sleeps).state is Stopping,
        after_sleeps(engine, sleeps).waited_ms == sleeps * AUDIO_STREAMER_INTERVAL_MILLIS,
        stop_step(after_sleeps(engine, (sleeps - 1) as nat), false).0 == StopProgress::Wait(
            AUDIO_STREAMER_INTERVAL_MILLIS,
        ),
    decreases sleeps,
{
    if sleeps > 1 {
        stop_keeps_count(engine, (sleeps - 1) as nat);
    }
}

/// A stop of a started run whose supervising context never finishes gives
/// up with `StopTimeout` once it has slept 667 times, 10005 milliseconds in
/// all, and not before.
pub proof fn stop_gives_up_after_the_timeout(engine: EngineView)
    requires
        engine.state is Running || engine.state is StopTimedOut,
    ensures
        forall|sleeps: nat|
            sleeps < 667 ==> #[trigger] stop_step(after_sleeps(engine, sleeps), false).0
                == StopProgress::Wait(AUDIO_STREAMER_INTERVAL_MILLIS),
        after_sleeps(engine, 667).waited_ms == 10005,
        stop_step(after_sleeps(engine, 667), false).0 == StopProgress::Finished(
            Err(EngineError::StopTimeout),
        ),
        stop_step(after_sleeps(engine, 667), false).1.state is StopTimedOut,
{
    assert forall|sleeps: nat| sleeps < 667 implies #[trigger] stop_step(
        after_sleeps(engine, sleeps),
        false,
    ).0 == StopProgress::Wait(AUDIO_STREAMER_INTERVAL_MILLIS) by {
        stop_keeps_count(engine, sleeps + 1);
    }
    stop_keeps_count(engine, 667);
}

/// The view of a borrowed endpoint, if there is one.
pub open spec fn endpoint_view_of(endpoint: Option<&Endpoint>) -> Option<EndpointView> {
    match endpoint {
        Some(e) => Some(e@),
        None => None,
    }
}

} // verus!
