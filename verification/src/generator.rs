use vstd::prelude::*;
use crate::state::{DesiredGeneratorState, GeneratorStatus, State, MAX_INSTANT_MS, MIN_INSTANT_MS};

verus! {

/// Whether the metrics page reports the generator as wanted. No decision of
/// the manager raises this flag, so it always reads as not wanted.
pub fn generator_wanted() -> (r: bool)
    ensures
        !r,
{
    false
}

/// The procedure that carries out a decision.
#[derive(PartialEq, Eq, Structural, Clone, Copy, Debug)]
pub enum Procedure {
    TurnOn,
    TurnOff,
}

/// Starting carries out `On`, stopping carries out `Off`, and nothing is done
/// when the generator is as wanted.
pub fn procedure_for(d: DesiredGeneratorState) -> (p: Option<Procedure>)
    ensures
        p == (match d {
            DesiredGeneratorState::On => Some(Procedure::TurnOn),
            DesiredGeneratorState::Off => Some(Procedure::TurnOff),
            DesiredGeneratorState::InDesiredState => None,
        }),
{
    match d {
        DesiredGeneratorState::On => Some(Procedure::TurnOn),
        DesiredGeneratorState::Off => Some(Procedure::TurnOff),
        DesiredGeneratorState::InDesiredState => None,
    }
}

/// Records the shore connection reading (in thousandths): any value other
/// than zero means that shore power is connected.
pub fn check_shore_available(state: &mut State, available: i64)
    ensures
        *final(state) == (State { shore_available: available != 0, ..*old(state) }),
{
    state.set_shore_availability(available != 0);
}

/// Records the AC input limit that the inverter reported (in thousandths of an
/// amp), rounded to a half amp.
pub fn record_current_limit(state: &mut State, limit: i64)
    requires
        limit <= i64::MAX - 400,
    ensures
        *final(state) == (State {
            ac_input: crate::units::spec_round_to_half(limit as int) as i64,
            ..*old(state)
        }),
{
    let rounded = crate::units::round_to_half(limit);
    state.set_ac_limit(rounded);
}

impl State {
    /// Whether `wanted` can decide at `now`, that is, whether a low voltage
    /// reading would start a timer that ends at a representable instant.
    pub fn can_decide(&self, now: i64) -> (r: bool)
        ensures
            r == self.wanted_defined(now as int),
    {
        let low_voltage = match self.last_voltage {
            Some(voltage) => voltage <= self.config.generator.low_voltage,
            None => false,
        };
        if !low_voltage {
            return true;
        }
        timer_end_representable(now, self.config.generator.low_voltage_charge_minutes as i64)
    }
}

/// Whether a timer of `minutes` started at `now` ends at a representable instant.
pub fn timer_end_representable(now: i64, minutes: i64) -> (r: bool)
    ensures
        r == (MIN_INSTANT_MS <= now <= MAX_INSTANT_MS && MIN_INSTANT_MS <= now + minutes * 60000
            <= MAX_INSTANT_MS),
{
    if now < crate::state::MIN_INSTANT_MS || now > crate::state::MAX_INSTANT_MS {
        return false;
    }
    // Keep the product inside i64 before computing it.
    let limit: i64 = 300000000000i64;
    if minutes > limit || minutes < -limit {
        return false;
    }
    let end = now + minutes * crate::state::MS_PER_MINUTE;
    crate::state::MIN_INSTANT_MS <= end && end <= crate::state::MAX_INSTANT_MS
}

/// Records a state of charge reading and decides what to do with the generator.
pub fn update_soc(state: &mut State, soc: i64, now: i64, generator: Option<GeneratorStatus>) -> (d: DesiredGeneratorState)
    requires
        (State { last_soc: Some(soc), ..*old(state) }).wanted_defined(now as int),
    ensures
        *final(state) == (State { last_soc: Some(soc), ..*old(state) }).after_wanted(now as int, generator),
        d == (State { last_soc: Some(soc), ..*old(state) }).desired(now as int, generator),
{
    state.set_last_soc(soc);
    state.wanted(now, generator)
}

/// Records a battery voltage reading and decides what to do with the generator.
pub fn update_voltage(state: &mut State, voltage: i64, now: i64, generator: Option<GeneratorStatus>) -> (d: DesiredGeneratorState)
    requires
        (State { last_voltage: Some(voltage), ..*old(state) }).wanted_defined(now as int),
    ensures
        *final(state) == (State { last_voltage: Some(voltage), ..*old(state) }).after_wanted(now as int, generator),
        d == (State { last_voltage: Some(voltage), ..*old(state) }).desired(now as int, generator),
{
    state.set_last_voltage(voltage);
    state.wanted(now, generator)
}

/// Records a battery power reading and decides what to do with the generator.
pub fn update_batt_wattage(state: &mut State, wattage: i64, now: i64, generator: Option<GeneratorStatus>) -> (d: DesiredGeneratorState)
    requires
        (State { last_batt_wattage: Some(wattage), ..*old(state) }).wanted_defined(now as int),
    ensures
        *final(state) == (State { last_batt_wattage: Some(wattage), ..*old(state) }).after_wanted(now as int, generator),
        d == (State { last_batt_wattage: Some(wattage), ..*old(state) }).desired(now as int, generator),
{
    state.set_last_batt_wattage(wattage);
    state.wanted(now, generator)
}

} // verus!

verus! {

/// How many times the generator's state is read while waiting for it to start or stop.
pub const POLL_ATTEMPTS: u32 = 180u32;

/// Seconds between two reads while waiting.
pub const POLL_INTERVAL_SECS: u64 = 1u64;

/// Seconds to let a started generator settle before raising the AC limit.
pub const SETTLE_SECS: u64 = 30u64;

/// What the caller observed after performing the last action of a procedure.
#[derive(PartialEq, Eq, Structural, Clone, Copy, Debug)]
pub enum Observation {
    /// The procedure is about to begin.
    Begin,
    /// The fuel tank level in percent, or `None` when it could not be read.
    GasLevel(Option<u8>),
    /// The generator's state, or `None` when it could not be read.
    Generator(Option<GeneratorStatus>),
    /// Whether the gateway accepted the start or stop command.
    CommandSent(bool),
    /// Whether the broker accepted the AC limit message.
    Published(bool),
    /// The requested pause is over.
    Slept,
}

/// Why starting the generator failed.
#[derive(PartialEq, Eq, Structural, Clone, Copy, Debug)]
pub enum TurnOnError {
    /// The generator was not off.
    InvalidState(GeneratorStatus),
    /// The generator did not run in time after the start command.
    FailedToTurnOn(GeneratorStatus),
    /// The fuel tank is empty.
    NoGas,
    /// The gateway did not accept the start command.
    SetError,
    /// The broker did not accept the AC limit message.
    AcLimitError,
    /// The generator's state could not be read.
    GeneratorStateConversionError,
}

/// Why stopping the generator failed.
#[derive(PartialEq, Eq, Structural, Clone, Copy, Debug)]
pub enum TurnOffError {
    /// The broker did not accept the AC limit message.
    SetAcLimit,
    /// The generator was not running.
    InvalidState(GeneratorStatus),
    /// The gateway did not accept the stop command.
    SetError,
    /// The generator's state could not be read.
    GeneratorStateConversionError,
}

/// The next thing to do while starting the generator.
pub enum TurnOnAction {
    ReadGasLevel,
    ReadGenerator,
    SendOn,
    Sleep(u64),
    /// Ask the inverter for this AC input limit (in thousandths of an amp).
    SetAcLimit(i64),
    Finish(Result<(), TurnOnError>),
}

/// The next thing to do while stopping the generator.
pub enum TurnOffAction {
    ReadGenerator,
    /// Ask the inverter for this AC input limit (in thousandths of an amp).
    SetAcLimit(i64),
    SendOff,
    Sleep(u64),
    Finish(Result<(), TurnOffError>),
}

/// Where the start procedure stands.
#[derive(PartialEq, Eq, Structural, Clone, Copy, Debug)]
pub enum TurnOnPhase {
    Start,
    CheckingGas,
    ReadingState,
    SendingOn,
    /// Waiting for a state read, with this many reads left (this one included).
    Polling(u32),
    /// Waiting out the pause after a read, with this many reads left (the last one included).
    PollWait(u32),
    FinalCheck,
    /// Waiting for the generator to settle; the AC limit to set afterwards.
    Settling(i64),
    Publishing,
    Done,
}

/// Where the stop procedure stands.
#[derive(PartialEq, Eq, Structural, Clone, Copy, Debug)]
pub enum TurnOffPhase {
    Start,
    ReadingState,
    Publishing,
    SendingOff,
    Polling(u32),
    PollWait(u32),
    Done,
}

/// The phases that a start procedure can be in.
pub open spec fn turn_on_phase_valid(phase: TurnOnPhase) -> bool {
    match phase {
        TurnOnPhase::Polling(n) => 1 <= n <= POLL_ATTEMPTS,
        TurnOnPhase::PollWait(n) => 1 <= n <= POLL_ATTEMPTS,
        TurnOnPhase::Done => false,
        _ => true,
    }
}

/// The phases that a stop procedure can be in.
pub open spec fn turn_off_phase_valid(phase: TurnOffPhase) -> bool {
    match phase {
        TurnOffPhase::Polling(n) => 1 <= n <= POLL_ATTEMPTS,
        TurnOffPhase::PollWait(n) => 1 <= n <= POLL_ATTEMPTS,
        TurnOffPhase::Done => false,
        _ => true,
    }
}

/// The observation that each phase of the start procedure waits for.
pub open spec fn turn_on_expects(phase: TurnOnPhase, obs: Observation) -> bool {
    match phase {
        TurnOnPhase::Start => obs is Begin,
        TurnOnPhase::CheckingGas => obs is GasLevel,
        TurnOnPhase::ReadingState => obs is Generator,
        TurnOnPhase::SendingOn => obs is CommandSent,
        TurnOnPhase::Polling(_) => obs is Generator,
        TurnOnPhase::PollWait(_) => obs is Slept,
        TurnOnPhase::FinalCheck => obs is Generator,
        TurnOnPhase::Settling(_) => obs is Slept,
        TurnOnPhase::Publishing => obs is Published,
        TurnOnPhase::Done => false,
    }
}

/// The observation that each phase of the stop procedure waits for.
pub open spec fn turn_off_expects(phase: TurnOffPhase, obs: Observation) -> bool {
    match phase {
        TurnOffPhase::Start => obs is Begin,
        TurnOffPhase::ReadingState => obs is Generator,
        TurnOffPhase::Publishing => obs is Published,
        TurnOffPhase::SendingOff => obs is CommandSent,
        TurnOffPhase::Polling(_) => obs is Generator,
        TurnOffPhase::PollWait(_) => obs is Slept,
        TurnOffPhase::Done => false,
    }
}

/// An upper bound on the steps left in a start procedure.
pub open spec fn turn_on_steps_left(phase: TurnOnPhase) -> nat {
    match phase {
        TurnOnPhase::Start => 368,
        TurnOnPhase::CheckingGas => 367,
        TurnOnPhase::ReadingState => 366,
        TurnOnPhase::SendingOn => 365,
        TurnOnPhase::Polling(n) => (4 + 2 * n) as nat,
        TurnOnPhase::PollWait(n) => (3 + 2 * n) as nat,
        TurnOnPhase::FinalCheck => 3,
        TurnOnPhase::Settling(_) => 2,
        TurnOnPhase::Publishing => 1,
        TurnOnPhase::Done => 0,
    }
}

/// An upper bound on the steps left in a stop procedure.
pub open spec fn turn_off_steps_left(phase: TurnOffPhase) -> nat {
    match phase {
        TurnOffPhase::Start => 365,
        TurnOffPhase::ReadingState => 364,
        TurnOffPhase::Publishing => 363,
        TurnOffPhase::SendingOff => 362,
        TurnOffPhase::Polling(n) => (1 + 2 * n) as nat,
        TurnOffPhase::PollWait(n) => (2 * n) as nat,
        TurnOffPhase::Done => 0,
    }
}

/// One step of starting the generator, between two outside calls.
/// `pre` and `post` are the manager's state before and after the step.
pub open spec fn turn_on_step_spec(
    pre: State,
    phase: TurnOnPhase,
    obs: Observation,
    post: State,
    next: TurnOnPhase,
    action: TurnOnAction,
) -> bool {
    match phase {
        TurnOnPhase::Start => post == pre && next == TurnOnPhase::CheckingGas && action is ReadGasLevel,
        TurnOnPhase::CheckingGas => match obs {
            Observation::GasLevel(Some(level)) if level == 0 => post == pre && next == TurnOnPhase::Done
                && action == TurnOnAction::Finish(Err(TurnOnError::NoGas)),
            _ => post == (State { we_turned_it_on: true, ..pre }) && next == TurnOnPhase::ReadingState
                && action is ReadGenerator,
        },
        TurnOnPhase::ReadingState => post == pre && match obs {
            Observation::Generator(Some(GeneratorStatus::Off)) => next == TurnOnPhase::SendingOn
                && action is SendOn,
            Observation::Generator(Some(s)) => next == TurnOnPhase::Done
                && action == TurnOnAction::Finish(Err(TurnOnError::InvalidState(s))),
            _ => next == TurnOnPhase::Done
                && action == TurnOnAction::Finish(Err(TurnOnError::GeneratorStateConversionError)),
        },
        TurnOnPhase::SendingOn => post == pre && if obs == Observation::CommandSent(true) {
            next == TurnOnPhase::Polling(POLL_ATTEMPTS) && action is ReadGenerator
        } else {
            next == TurnOnPhase::Done && action == TurnOnAction::Finish(Err(TurnOnError::SetError))
        },
        TurnOnPhase::Polling(n) => post == pre && if obs == Observation::Generator(Some(GeneratorStatus::Running)) {
            next == TurnOnPhase::FinalCheck && action is ReadGenerator
        } else {
            next == TurnOnPhase::PollWait(n) && action == TurnOnAction::Sleep(POLL_INTERVAL_SECS)
        },
        TurnOnPhase::PollWait(n) => post == pre && action is ReadGenerator && if n <= 1 {
            next == TurnOnPhase::FinalCheck
        } else {
            next == TurnOnPhase::Polling((n - 1) as u32)
        },
        TurnOnPhase::FinalCheck => post == pre && match obs {
            Observation::Generator(Some(GeneratorStatus::Running)) => next == TurnOnPhase::Settling(
                pre.config.generator.limit,
            ) && action == TurnOnAction::Sleep(SETTLE_SECS),
            Observation::Generator(Some(s)) => next == TurnOnPhase::Done
                && action == TurnOnAction::Finish(Err(TurnOnError::FailedToTurnOn(s))),
            _ => next == TurnOnPhase::Done
                && action == TurnOnAction::Finish(Err(TurnOnError::GeneratorStateConversionError)),
        },
        TurnOnPhase::Settling(limit) => post == pre && next == TurnOnPhase::Publishing
            && action == TurnOnAction::SetAcLimit(limit),
        TurnOnPhase::Publishing => post == pre && next == TurnOnPhase::Done && if obs == Observation::Published(true) {
            action == TurnOnAction::Finish(Ok(()))
        } else {
            action == TurnOnAction::Finish(Err(TurnOnError::AcLimitError))
        },
        TurnOnPhase::Done => false,
    }
}

} // verus!

verus! {

/// One step of starting the generator. The caller performs the returned
/// action, observes its outcome and calls again with the next phase, until
/// the action is `Finish`. In order: the fuel tank is checked (an empty tank
/// ends the procedure, an unreadable one does not); the generator is marked as
/// ours and must be off; the start command is sent; its state is read up to
/// `POLL_ATTEMPTS` times, a second apart, until it runs; it must run then; after
/// `SETTLE_SECS` seconds the AC limit is raised to the generator's limit.
pub fn turn_on(state: &mut State, phase: TurnOnPhase, obs: Observation) -> (res: (TurnOnPhase, TurnOnAction))
    requires
        turn_on_phase_valid(phase),
        turn_on_expects(phase, obs),
    ensures
        turn_on_step_spec(*old(state), phase, obs, *final(state), res.0, res.1),
{
    match phase {
        TurnOnPhase::Start => (TurnOnPhase::CheckingGas, TurnOnAction::ReadGasLevel),
        TurnOnPhase::CheckingGas => {
            if let Observation::GasLevel(Some(level)) = obs {
                if level == 0 {
                    return (TurnOnPhase::Done, TurnOnAction::Finish(Err(TurnOnError::NoGas)));
                }
            }
            state.turned_on();
            (TurnOnPhase::ReadingState, TurnOnAction::ReadGenerator)
        },
        TurnOnPhase::ReadingState => match obs {
            Observation::Generator(Some(GeneratorStatus::Off)) => (TurnOnPhase::SendingOn, TurnOnAction::SendOn),
            Observation::Generator(Some(s)) => (
                TurnOnPhase::Done,
                TurnOnAction::Finish(Err(TurnOnError::InvalidState(s))),
            ),
            _ => (
                TurnOnPhase::Done,
                TurnOnAction::Finish(Err(TurnOnError::GeneratorStateConversionError)),
            ),
        },
        TurnOnPhase::SendingOn => match obs {
            Observation::CommandSent(true) => (TurnOnPhase::Polling(POLL_ATTEMPTS), TurnOnAction::ReadGenerator),
            _ => (TurnOnPhase::Done, TurnOnAction::Finish(Err(TurnOnError::SetError))),
        },
        TurnOnPhase::Polling(n) => match obs {
            Observation::Generator(Some(GeneratorStatus::Running)) => (TurnOnPhase::FinalCheck, TurnOnAction::ReadGenerator),
            _ => (TurnOnPhase::PollWait(n), TurnOnAction::Sleep(POLL_INTERVAL_SECS)),
        },
        TurnOnPhase::PollWait(n) => {
            if n <= 1 {
                (TurnOnPhase::FinalCheck, TurnOnAction::ReadGenerator)
            } else {
                (TurnOnPhase::Polling(n - 1), TurnOnAction::ReadGenerator)
            }
        },
        TurnOnPhase::FinalCheck => match obs {
            Observation::Generator(Some(GeneratorStatus::Running)) => (
                TurnOnPhase::Settling(state.config.generator.limit),
                TurnOnAction::Sleep(SETTLE_SECS),
            ),
            Observation::Generator(Some(s)) => (
                TurnOnPhase::Done,
                TurnOnAction::Finish(Err(TurnOnError::FailedToTurnOn(s))),
            ),
            _ => (
                TurnOnPhase::Done,
                TurnOnAction::Finish(Err(TurnOnError::GeneratorStateConversionError)),
            ),
        },
        TurnOnPhase::Settling(limit) => (TurnOnPhase::Publishing, TurnOnAction::SetAcLimit(limit)),
        TurnOnPhase::Publishing => match obs {
            Observation::Published(true) => (TurnOnPhase::Done, TurnOnAction::Finish(Ok(()))),
            _ => (TurnOnPhase::Done, TurnOnAction::Finish(Err(TurnOnError::AcLimitError))),
        },
        TurnOnPhase::Done => (TurnOnPhase::Done, TurnOnAction::Finish(Ok(()))),
    }
}

} // verus!

verus! {

/// One step of stopping the generator, as `turn_on_step_spec` is for starting it.
pub open spec fn turn_off_step_spec(
    pre: State,
    phase: TurnOffPhase,
    obs: Observation,
    post: State,
    next: TurnOffPhase,
    action: TurnOffAction,
) -> bool {
    match phase {
        TurnOffPhase::Start => post == (State { we_turned_it_on: false, ..pre })
            && next == TurnOffPhase::ReadingState && action is ReadGenerator,
        TurnOffPhase::ReadingState => post == pre && match obs {
            Observation::Generator(Some(GeneratorStatus::Running)) => next == TurnOffPhase::Publishing
                && action == TurnOffAction::SetAcLimit(pre.config.shore_limit),
            Observation::Generator(Some(s)) => next == TurnOffPhase::Done
                && action == TurnOffAction::Finish(Err(TurnOffError::InvalidState(s))),
            _ => next == TurnOffPhase::Done
                && action == TurnOffAction::Finish(Err(TurnOffError::GeneratorStateConversionError)),
        },
        TurnOffPhase::Publishing => post == pre && if obs == Observation::Published(true) {
            next == TurnOffPhase::SendingOff && action is SendOff
        } else {
            next == TurnOffPhase::Done && action == TurnOffAction::Finish(Err(TurnOffError::SetAcLimit))
        },
        TurnOffPhase::SendingOff => post == pre && if obs == Observation::CommandSent(true) {
            next == TurnOffPhase::Polling(POLL_ATTEMPTS) && action is ReadGenerator
        } else {
            next == TurnOffPhase::Done && action == TurnOffAction::Finish(Err(TurnOffError::SetError))
        },
        TurnOffPhase::Polling(n) => post == pre && if obs == Observation::Generator(Some(GeneratorStatus::Off)) {
            next == TurnOffPhase::Done && action == TurnOffAction::Finish(Ok(()))
        } else {
            next == TurnOffPhase::PollWait(n) && action == TurnOffAction::Sleep(POLL_INTERVAL_SECS)
        },
        TurnOffPhase::PollWait(n) => post == pre && if n <= 1 {
            next == TurnOffPhase::Done && action == TurnOffAction::Finish(Ok(()))
        } else {
            next == TurnOffPhase::Polling((n - 1) as u32) && action is ReadGenerator
        },
        TurnOffPhase::Done => false,
    }
}

/// One step of stopping the generator. In order: the generator is marked as
/// not ours; it must be running; the AC limit is lowered to the shore limit;
/// the stop command is sent; its state is read up to `POLL_ATTEMPTS` times, a
/// second apart, until it is off. The procedure succeeds once the command was
/// sent, whether or not the generator reported off in time.
pub fn turn_off(state: &mut State, phase: TurnOffPhase, obs: Observation) -> (res: (TurnOffPhase, TurnOffAction))
    requires
        turn_off_phase_valid(phase),
        turn_off_expects(phase, obs),
    ensures
        turn_off_step_spec(*old(state), phase, obs, *final(state), res.0, res.1),
{
    match phase {
        TurnOffPhase::Start => {
            state.turned_off();
            (TurnOffPhase::ReadingState, TurnOffAction::ReadGenerator)
        },
        TurnOffPhase::ReadingState => match obs {
            Observation::Generator(Some(GeneratorStatus::Running)) => {
                (TurnOffPhase::Publishing, TurnOffAction::SetAcLimit(state.config.shore_limit))
            },
            Observation::Generator(Some(s)) => (
                TurnOffPhase::Done,
                TurnOffAction::Finish(Err(TurnOffError::InvalidState(s))),
            ),
            _ => (
                TurnOffPhase::Done,
                TurnOffAction::Finish(Err(TurnOffError::GeneratorStateConversionError)),
            ),
        },
        TurnOffPhase::Publishing => match obs {
            Observation::Published(true) => (TurnOffPhase::SendingOff, TurnOffAction::SendOff),
            _ => (TurnOffPhase::Done, TurnOffAction::Finish(Err(TurnOffError::SetAcLimit))),
        },
        TurnOffPhase::SendingOff => match obs {
            Observation::CommandSent(true) => (TurnOffPhase::Polling(POLL_ATTEMPTS), TurnOffAction::ReadGenerator),
            _ => (TurnOffPhase::Done, TurnOffAction::Finish(Err(TurnOffError::SetError))),
        },
        TurnOffPhase::Polling(n) => match obs {
            Observation::Generator(Some(GeneratorStatus::Off)) => (TurnOffPhase::Done, TurnOffAction::Finish(Ok(()))),
            _ => (TurnOffPhase::PollWait(n), TurnOffAction::Sleep(POLL_INTERVAL_SECS)),
        },
        TurnOffPhase::PollWait(n) => {
            if n <= 1 {
                (TurnOffPhase::Done, TurnOffAction::Finish(Ok(())))
            } else {
                (TurnOffPhase::Polling(n - 1), TurnOffAction::ReadGenerator)
            }
        },
        TurnOffPhase::Done => (TurnOffPhase::Done, TurnOffAction::Finish(Ok(()))),
    }
}

} // verus!

verus! {

/// Every step of the start procedure brings it closer to its end: at most 368
/// steps are taken, the procedure ends exactly when the action is `Finish`, and
/// it only ever changes whether the generator counts as ours.
pub proof fn lemma_turn_on_progress(
    pre: State,
    phase: TurnOnPhase,
    obs: Observation,
    post: State,
    next: TurnOnPhase,
    action: TurnOnAction,
)
    requires
        turn_on_phase_valid(phase),
        turn_on_expects(phase, obs),
        turn_on_step_spec(pre, phase, obs, post, next, action),
    ensures
        turn_on_steps_left(next) < turn_on_steps_left(phase),
        next == TurnOnPhase::Done <==> action is Finish,
        next != TurnOnPhase::Done ==> turn_on_phase_valid(next),
        post == (State { we_turned_it_on: post.we_turned_it_on, ..pre }),
{
}

/// The start command is sent only right after the generator was read as off,
/// and that read only follows a fuel check that did not find an empty tank and
/// marked the generator as ours.
pub proof fn lemma_start_command_only_when_off(
    pre: State,
    phase: TurnOnPhase,
    obs: Observation,
    post: State,
    next: TurnOnPhase,
    action: TurnOnAction,
)
    requires
        turn_on_phase_valid(phase),
        turn_on_expects(phase, obs),
        turn_on_step_spec(pre, phase, obs, post, next, action),
    ensures
        action is SendOn ==> phase == TurnOnPhase::ReadingState && obs == Observation::Generator(
            Some(GeneratorStatus::Off),
        ),
        next == TurnOnPhase::ReadingState ==> {
            &&& phase == TurnOnPhase::CheckingGas
            &&& obs != Observation::GasLevel(Some(0))
            &&& post.we_turned_it_on
        },
        next matches TurnOnPhase::Settling(limit) ==> limit == pre.config.generator.limit
            && obs == Observation::Generator(Some(GeneratorStatus::Running)),
{
}

/// Every step of the stop procedure brings it closer to its end: at most 365
/// steps are taken, the procedure ends exactly when the action is `Finish`,
/// and it only ever changes whether the generator counts as ours.
pub proof fn lemma_turn_off_progress(
    pre: State,
    phase: TurnOffPhase,
    obs: Observation,
    post: State,
    next: TurnOffPhase,
    action: TurnOffAction,
)
    requires
        turn_off_phase_valid(phase),
        turn_off_expects(phase, obs),
        turn_off_step_spec(pre, phase, obs, post, next, action),
    ensures
        turn_off_steps_left(next) < turn_off_steps_left(phase),
        next == TurnOffPhase::Done <==> action is Finish,
        next != TurnOffPhase::Done ==> turn_off_phase_valid(next),
        post == (State { we_turned_it_on: post.we_turned_it_on, ..pre }),
        phase == TurnOffPhase::Start ==> !post.we_turned_it_on,
{
}

/// The stop command is sent only after the broker accepted the message that
/// lowers the AC limit to the shore limit, and that message is only sent while
/// the generator was read as running.
pub proof fn lemma_stop_command_after_shore_limit(
    pre: State,
    phase: TurnOffPhase,
    obs: Observation,
    post: State,
    next: TurnOffPhase,
    action: TurnOffAction,
)
    requires
        turn_off_phase_valid(phase),
        turn_off_expects(phase, obs),
        turn_off_step_spec(pre, phase, obs, post, next, action),
    ensures
        action is SendOff ==> phase == TurnOffPhase::Publishing && obs == Observation::Published(true),
        next == TurnOffPhase::Publishing ==> {
            &&& phase == TurnOffPhase::ReadingState
            &&& obs == Observation::Generator(Some(GeneratorStatus::Running))
            &&& action == TurnOffAction::SetAcLimit(pre.config.shore_limit)
        },
{
}

} // verus!

verus! {

/// The most generator state reads that a start procedure still makes from `phase` on.
pub open spec fn turn_on_reads_budget(phase: TurnOnPhase) -> nat {
    match phase {
        TurnOnPhase::Start => 182,
        TurnOnPhase::CheckingGas => 182,
        TurnOnPhase::ReadingState => 181,
        TurnOnPhase::SendingOn => 181,
        TurnOnPhase::Polling(n) => n as nat,
        TurnOnPhase::PollWait(n) => n as nat,
        _ => 0,
    }
}

/// The most seconds that a start procedure still sleeps from `phase` on.
pub open spec fn turn_on_sleep_budget(phase: TurnOnPhase) -> nat {
    match phase {
        TurnOnPhase::Start => 210,
        TurnOnPhase::CheckingGas => 210,
        TurnOnPhase::ReadingState => 210,
        TurnOnPhase::SendingOn => 210,
        TurnOnPhase::Polling(n) => (n + 30) as nat,
        TurnOnPhase::PollWait(n) => (n + 29) as nat,
        TurnOnPhase::FinalCheck => 30,
        _ => 0,
    }
}

/// The most generator state reads that a stop procedure still makes from `phase` on.
pub open spec fn turn_off_reads_budget(phase: TurnOffPhase) -> nat {
    match phase {
        TurnOffPhase::Start => 181,
        TurnOffPhase::ReadingState => 180,
        TurnOffPhase::Publishing => 180,
        TurnOffPhase::SendingOff => 180,
        TurnOffPhase::Polling(n) => (n - 1) as nat,
        TurnOffPhase::PollWait(n) => (n - 1) as nat,
        TurnOffPhase::Done => 0,
    }
}

/// The most seconds that a stop procedure still sleeps from `phase` on.
pub open spec fn turn_off_sleep_budget(phase: TurnOffPhase) -> nat {
    match phase {
        TurnOffPhase::Polling(n) => n as nat,
        TurnOffPhase::PollWait(n) => (n - 1) as nat,
        TurnOffPhase::Done => 0,
        _ => 180,
    }
}

/// Generator state reads among the actions of a start procedure.
pub open spec fn turn_on_reads(actions: Seq<TurnOnAction>) -> nat
    decreases actions.len(),
{
    if actions.len() == 0 {
        0
    } else {
        turn_on_reads(actions.drop_last()) + if actions.last() is ReadGenerator { 1nat } else { 0nat }
    }
}

/// Seconds slept among the actions of a start procedure.
pub open spec fn turn_on_sleep(actions: Seq<TurnOnAction>) -> nat
    decreases actions.len(),
{
    if actions.len() == 0 {
        0
    } else {
        turn_on_sleep(actions.drop_last()) + match actions.last() {
            TurnOnAction::Sleep(secs) => secs as nat,
            _ => 0nat,
        }
    }
}

/// Generator state reads among the actions of a stop procedure.
pub open spec fn turn_off_reads(actions: Seq<TurnOffAction>) -> nat
    decreases actions.len(),
{
    if actions.len() == 0 {
        0
    } else {
        turn_off_reads(actions.drop_last()) + if actions.last() is ReadGenerator { 1nat } else { 0nat }
    }
}

/// Seconds slept among the actions of a stop procedure.
pub open spec fn turn_off_sleep(actions: Seq<TurnOffAction>) -> nat
    decreases actions.len(),
{
    if actions.len() == 0 {
        0
    } else {
        turn_off_sleep(actions.drop_last()) + match actions.last() {
            TurnOffAction::Sleep(secs) => secs as nat,
            _ => 0nat,
        }
    }
}

/// A start procedure run from its beginning: step `i` goes from `states[i]`
/// and `phases[i]`, with observation `obs[i]`, to `states[i + 1]` and
/// `phases[i + 1]`, and asks for `actions[i]`.
pub open spec fn is_turn_on_run(
    states: Seq<State>,
    phases: Seq<TurnOnPhase>,
    obs: Seq<Observation>,
    actions: Seq<TurnOnAction>,
) -> bool {
    &&& phases.len() == actions.len() + 1
    &&& states.len() == phases.len()
    &&& obs.len() == actions.len()
    &&& phases[0] == TurnOnPhase::Start
    &&& forall|i: int|
        0 <= i < actions.len() ==> {
            &&& turn_on_phase_valid(#[trigger] phases[i])
            &&& turn_on_expects(phases[i], obs[i])
            &&& turn_on_step_spec(states[i], phases[i], obs[i], states[i + 1], phases[i + 1], actions[i])
        }
}

/// A stop procedure run from its beginning, as `is_turn_on_run` is for starting.
pub open spec fn is_turn_off_run(
    states: Seq<State>,
    phases: Seq<TurnOffPhase>,
    obs: Seq<Observation>,
    actions: Seq<TurnOffAction>,
) -> bool {
    &&& phases.len() == actions.len() + 1
    &&& states.len() == phases.len()
    &&& obs.len() == actions.len()
    &&& phases[0] == TurnOffPhase::Start
    &&& forall|i: int|
        0 <= i < actions.len() ==> {
            &&& turn_off_phase_valid(#[trigger] phases[i])
            &&& turn_off_expects(phases[i], obs[i])
            &&& turn_off_step_spec(states[i], phases[i], obs[i], states[i + 1], phases[i + 1], actions[i])
        }
}

proof fn lemma_turn_on_step_budget(
    pre: State,
    phase: TurnOnPhase,
    obs: Observation,
    post: State,
    next: TurnOnPhase,
    action: TurnOnAction,
)
    requires
        turn_on_phase_valid(phase),
        turn_on_expects(phase, obs),
        turn_on_step_spec(pre, phase, obs, post, next, action),
    ensures
        (if action is ReadGenerator { 1nat } else { 0nat }) + turn_on_reads_budget(next)
            <= turn_on_reads_budget(phase),
        (match action {
            TurnOnAction::Sleep(secs) => secs as nat,
            _ => 0nat,
        }) + turn_on_sleep_budget(next) <= turn_on_sleep_budget(phase),
{
}

proof fn lemma_turn_off_step_budget(
    pre: State,
    phase: TurnOffPhase,
    obs: Observation,
    post: State,
    next: TurnOffPhase,
    action: TurnOffAction,
)
    requires
        turn_off_phase_valid(phase),
        turn_off_expects(phase, obs),
        turn_off_step_spec(pre, phase, obs, post, next, action),
    ensures
        (if action is ReadGenerator { 1nat } else { 0nat }) + turn_off_reads_budget(next)
            <= turn_off_reads_budget(phase),
        (match action {
            TurnOffAction::Sleep(secs) => secs as nat,
            _ => 0nat,
        }) + turn_off_sleep_budget(next) <= turn_off_sleep_budget(phase),
        next != TurnOffPhase::Start,
        phase != TurnOffPhase::Start ==> post == pre,
        phase == TurnOffPhase::Start ==> !post.we_turned_it_on,
{
}

proof fn lemma_turn_on_prefix(
    states: Seq<State>,
    phases: Seq<TurnOnPhase>,
    obs: Seq<Observation>,
    actions: Seq<TurnOnAction>,
    k: int,
)
    requires
        is_turn_on_run(states, phases, obs, actions),
        0 <= k <= actions.len(),
    ensures
        turn_on_reads(actions.take(k)) + turn_on_reads_budget(phases[k]) <= 182,
        turn_on_sleep(actions.take(k)) + turn_on_sleep_budget(phases[k]) <= 210,
    decreases k,
{
    if k == 0 {
        assert(actions.take(0) =~= Seq::<TurnOnAction>::empty());
    } else {
        lemma_turn_on_prefix(states, phases, obs, actions, k - 1);
        let i = k - 1;
        assert(turn_on_phase_valid(phases[i]));
        lemma_turn_on_step_budget(states[i], phases[i], obs[i], states[i + 1], phases[i + 1], actions[i]);
        assert(actions.take(k).drop_last() =~= actions.take(k - 1));
        assert(actions.take(k).last() == actions[i]);
    }
}

proof fn lemma_turn_off_prefix(
    states: Seq<State>,
    phases: Seq<TurnOffPhase>,
    obs: Seq<Observation>,
    actions: Seq<TurnOffAction>,
    k: int,
)
    requires
        is_turn_off_run(states, phases, obs, actions),
        0 <= k <= actions.len(),
    ensures
        turn_off_reads(actions.take(k)) + turn_off_reads_budget(phases[k]) <= 181,
        turn_off_sleep(actions.take(k)) + turn_off_sleep_budget(phases[k]) <= 180,
        k >= 1 ==> !states[k].we_turned_it_on,
        k >= 1 ==> phases[k] != TurnOffPhase::Start,
    decreases k,
{
    if k == 0 {
        assert(actions.take(0) =~= Seq::<TurnOffAction>::empty());
    } else {
        lemma_turn_off_prefix(states, phases, obs, actions, k - 1);
        let i = k - 1;
        assert(turn_off_phase_valid(phases[i]));
        lemma_turn_off_step_budget(states[i], phases[i], obs[i], states[i + 1], phases[i + 1], actions[i]);
        assert(actions.take(k).drop_last() =~= actions.take(k - 1));
        assert(actions.take(k).last() == actions[i]);
    }
}

/// A whole start procedure reads the generator's state at most 182 times (one
/// check before the start command, up to `POLL_ATTEMPTS` while waiting, one
/// final check) and sleeps at most 210 seconds in all (`POLL_ATTEMPTS` pauses
/// of a second, then `SETTLE_SECS`).
pub proof fn lemma_turn_on_run_bounded(
    states: Seq<State>,
    phases: Seq<TurnOnPhase>,
    obs: Seq<Observation>,
    actions: Seq<TurnOnAction>,
)
    requires
        is_turn_on_run(states, phases, obs, actions),
    ensures
        turn_on_reads(actions) <= 182,
        turn_on_sleep(actions) <= 210,
{
    lemma_turn_on_prefix(states, phases, obs, actions, actions.len() as int);
    assert(actions.take(actions.len() as int) =~= actions);
}

/// After any number of steps of a stop procedure, whether it ended in success
/// or in an error, the generator no longer counts as one that this program
/// started. A whole stop procedure reads the generator's state at most 181
/// times and sleeps at most 180 seconds.
pub proof fn lemma_turn_off_run_clears_ours(
    states: Seq<State>,
    phases: Seq<TurnOffPhase>,
    obs: Seq<Observation>,
    actions: Seq<TurnOffAction>,
)
    requires
        is_turn_off_run(states, phases, obs, actions),
        actions.len() >= 1,
    ensures
        !states.last().we_turned_it_on,
        turn_off_reads(actions) <= 181,
        turn_off_sleep(actions) <= 180,
{
    lemma_turn_off_prefix(states, phases, obs, actions, actions.len() as int);
    assert(actions.take(actions.len() as int) =~= actions);
}

/// The start is refused for lack of fuel exactly when the tank reads 0%: at
/// any other level, and when the level cannot be read, the generator is marked
/// as ours and its state is read next. No other step ends with `NoGas`.
pub proof fn lemma_fuel_check(
    pre: State,
    phase: TurnOnPhase,
    obs: Observation,
    post: State,
    next: TurnOnPhase,
    action: TurnOnAction,
)
    requires
        turn_on_phase_valid(phase),
        turn_on_expects(phase, obs),
        turn_on_step_spec(pre, phase, obs, post, next, action),
    ensures
        (phase == TurnOnPhase::CheckingGas && obs == Observation::GasLevel(Some(0))) ==> {
            &&& next == TurnOnPhase::Done
            &&& action == TurnOnAction::Finish(Err(TurnOnError::NoGas))
            &&& post == pre
        },
        (phase == TurnOnPhase::CheckingGas && obs != Observation::GasLevel(Some(0))) ==> {
            &&& next == TurnOnPhase::ReadingState
            &&& action is ReadGenerator
            &&& post == (State { we_turned_it_on: true, ..pre })
        },
        action == TurnOnAction::Finish(Err(TurnOnError::NoGas)) ==> phase == TurnOnPhase::CheckingGas
            && obs == Observation::GasLevel(Some(0)),
{
}

} // verus!
