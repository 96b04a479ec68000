//! The control loop's phase machine.
//!
//! The loop has two live phases — Initializing, entered once at startup, and
//! Running, a single non-terminating cycle — plus Halted, the absorbing
//! phase any failure leads to: construction failure and steady-state read
//! failure are both fatal, with no retry and no degraded mode. Each Running
//! iteration is stateless with respect to prior iterations; the commanded
//! actuator state is re-derived wholesale from the fresh reading.

use vstd::prelude::*;

use crate::actuator::{classify, spec_classify, ActuatorState};
use crate::bus::{BusError, TransactionBus};
use crate::compass::{Compass, OperatingMode};
use crate::sample::MagneticSample;

verus! {

/// The phase of the control loop.
#[derive(Clone, Copy, PartialEq, Eq, Structural, Debug)]
pub enum Phase {
    /// Entered once at startup; the one configuration write is pending.
    Initializing,
    /// The steady-state cycle: read a sample, classify, actuate, repeat.
    Running,
    /// Absorbing: a fatal failure stopped forward progress for good.
    Halted,
}

/// The bus work the loop performs in a phase.
#[derive(Clone, Copy, PartialEq, Eq, Structural, Debug)]
pub enum BusCommand {
    /// Apply the one configuration write to the device.
    Configure,
    /// Read the six data registers for a fresh sample.
    ReadSample,
    /// Nothing: the process makes no further forward progress.
    Halt,
}

/// One observed outcome of the loop's pending bus work.
pub enum Event {
    /// The configuration write completed or failed.
    InitResult(Result<(), BusError>),
    /// A sample read completed with a reading, or failed.
    SampleResult(Result<MagneticSample, BusError>),
}

/// The bus work pending in a phase: the configuration write while
/// initializing, a sample read while running, nothing once halted.
pub open spec fn command_of(p: Phase) -> BusCommand {
    match p {
        Phase::Initializing => BusCommand::Configure,
        Phase::Running => BusCommand::ReadSample,
        Phase::Halted => BusCommand::Halt,
    }
}

/// The phase after observing one event. A successful configuration write is
/// the only way into Running; any failure — and any event out of protocol
/// for the current phase — halts for good.
pub open spec fn spec_step(p: Phase, e: Event) -> Phase {
    match p {
        Phase::Initializing => match e {
            Event::InitResult(r) => if r is Ok {
                Phase::Running
            } else {
                Phase::Halted
            },
            Event::SampleResult(_) => Phase::Halted,
        },
        Phase::Running => match e {
            Event::SampleResult(r) => if r is Ok {
                Phase::Running
            } else {
                Phase::Halted
            },
            Event::InitResult(_) => Phase::Halted,
        },
        Phase::Halted => Phase::Halted,
    }
}

/// The phase after observing a whole sequence of events, starting from
/// Initializing at startup.
pub open spec fn phase_after(events: Seq<Event>) -> Phase
    decreases events.len(),
{
    if events.len() == 0 {
        Phase::Initializing
    } else {
        spec_step(phase_after(events.drop_last()), events.last())
    }
}

/// No event leads back to Initializing: it is entered once, at startup.
pub proof fn lemma_initializing_never_reentered(p: Phase, e: Event)
    ensures
        spec_step(p, e) !is Initializing,
{
}

/// Initializing holds exactly at startup, before any event: so the
/// configuration write is pending exactly once, first, before any other bus
/// work.
pub proof fn lemma_configure_pending_only_at_start(events: Seq<Event>)
    ensures
        phase_after(events) is Initializing <==> events.len() == 0,
        command_of(phase_after(events)) is Configure <==> events.len() == 0,
{
    if events.len() > 0 {
        lemma_initializing_never_reentered(phase_after(events.drop_last()), events.last());
    }
}

/// Running is reachable only through a successful configuration write: in
/// any run that is Running, the first observed event was the configuration
/// write completing.
pub proof fn lemma_running_requires_init_success(events: Seq<Event>)
    requires
        phase_after(events) is Running,
    ensures
        events.len() >= 1,
        events[0] matches Event::InitResult(r) && r is Ok,
    decreases events.len(),
{
    let prior = phase_after(events.drop_last());
    if prior is Initializing {
        lemma_configure_pending_only_at_start(events.drop_last());
        assert(events.len() == 1);
        assert(events[0] == events.last());
    } else {
        assert(prior is Running);
        lemma_running_requires_init_success(events.drop_last());
        assert(events[0] == events.drop_last()[0]);
    }
}

/// A sample read is pending only in Running, so no read is reachable before
/// the one configuration write has succeeded: construction-time ordering.
pub proof fn lemma_no_read_before_init_success(events: Seq<Event>)
    requires
        command_of(phase_after(events)) is ReadSample,
    ensures
        events.len() >= 1,
        events[0] matches Event::InitResult(r) && r is Ok,
{
    lemma_running_requires_init_success(events);
}

/// The control loop's live state: its phase and the actuator state it last
/// commanded (both outputs deasserted until a sample is classified).
pub struct Controller {
    phase: Phase,
    outputs: ActuatorState,
}

impl Controller {
    /// The current phase.
    pub closed spec fn phase(self) -> Phase {
        self.phase
    }

    /// The actuator state last commanded.
    pub closed spec fn outputs(self) -> ActuatorState {
        self.outputs
    }

    /// Start the loop: Initializing, with both outputs deasserted.
    pub fn new() -> (c: Controller)
        ensures
            c.phase() is Initializing,
            c.outputs() == ActuatorState::spec_deasserted(),
    {
        Controller { phase: Phase::Initializing, outputs: ActuatorState::deasserted() }
    }

    /// The current phase, for observers outside the loop.
    pub fn current_phase(&self) -> (p: Phase)
        ensures
            p == self.phase(),
    {
        self.phase
    }

    /// The actuator state last commanded, for observers outside the loop.
    pub fn current_outputs(&self) -> (a: ActuatorState)
        ensures
            a == self.outputs(),
    {
        self.outputs
    }

    /// The bus work pending in the current phase.
    pub fn command(&self) -> (cmd: BusCommand)
        ensures
            cmd == command_of(self.phase()),
    {
        match self.phase {
            Phase::Initializing => BusCommand::Configure,
            Phase::Running => BusCommand::ReadSample,
            Phase::Halted => BusCommand::Halt,
        }
    }

    /// Observe the outcome of the configuration write: success enters
    /// Running, failure halts for good. The outputs are untouched — nothing
    /// is actuated before the first sample.
    pub fn on_init(&mut self, r: Result<(), BusError>)
        requires
            old(self).phase() is Initializing,
        ensures
            final(self).phase() == spec_step(old(self).phase(), Event::InitResult(r)),
            final(self).phase() is Running <==> r is Ok,
            r is Err ==> final(self).phase() is Halted,
            final(self).outputs() == old(self).outputs(),
    {
        self.phase = match r {
            Ok(()) => Phase::Running,
            Err(_) => Phase::Halted,
        };
    }

    /// Observe the outcome of a sample read. A reading keeps the loop
    /// Running and commands the state classified from its first axis,
    /// returned for the caller to apply; a failed read halts for good, with
    /// the previously commanded outputs left unchanged and nothing applied.
    pub fn on_sample(&mut self, r: Result<MagneticSample, BusError>) -> (applied: Option<
        ActuatorState,
    >)
        requires
            old(self).phase() is Running,
        ensures
            final(self).phase() == spec_step(old(self).phase(), Event::SampleResult(r)),
            r matches Ok(s) ==> {
                &&& final(self).phase() is Running
                &&& final(self).outputs() == spec_classify(s.x)
                &&& applied == Some(spec_classify(s.x))
            },
            r is Err ==> {
                &&& final(self).phase() is Halted
                &&& final(self).outputs() == old(self).outputs()
                &&& applied is None
            },
    {
        match r {
            Ok(s) => {
                let a = classify(s.x);
                self.outputs = a;
                Some(a)
            },
            Err(_) => {
                self.phase = Phase::Halted;
                None
            },
        }
    }
}

/// Acquire and configure the sensor once, at startup: construct the driver
/// over the bus and feed the outcome to the controller. On success the loop
/// enters Running with a ready driver; on failure it halts with no driver —
/// so no sample read is ever attempted after a failed initialization.
pub fn start<B: TransactionBus>(bus: B, mode: OperatingMode, ctrl: &mut Controller) -> (r: Option<
    Compass<B>,
>)
    requires
        old(ctrl).phase() is Initializing,
    ensures
        r matches Some(c) ==> {
            &&& final(ctrl).phase() is Running
            &&& c.configured_mode() == mode
        },
        r is None ==> final(ctrl).phase() is Halted,
        final(ctrl).outputs() == old(ctrl).outputs(),
{
    match Compass::new(bus, mode) {
        Ok(c) => {
            ctrl.on_init(Ok(()));
            Some(c)
        },
        Err(e) => {
            ctrl.on_init(Err(e));
            None
        },
    }
}

/// One steady-state iteration: read a fresh sample and feed it to the
/// controller. Whatever the bus returned: a successful read keeps the loop
/// Running and yields the actuator state to apply; a failed read halts it
/// with the previous outputs unchanged and nothing applied.
pub fn run_cycle<B: TransactionBus>(compass: &mut Compass<B>, ctrl: &mut Controller) -> (applied:
    Option<ActuatorState>)
    requires
        old(ctrl).phase() is Running,
    ensures
        final(compass).configured_mode() == old(compass).configured_mode(),
        applied matches Some(a) ==> {
            &&& final(ctrl).phase() is Running
            &&& final(ctrl).outputs() == a
        },
        applied is None ==> {
            &&& final(ctrl).phase() is Halted
            &&& final(ctrl).outputs() == old(ctrl).outputs()
        },
{
    let r = compass.get_compass_reading();
    ctrl.on_sample(r)
}

} // verus!
