use vstd::prelude::*;
use crate::generator::generator_wanted;
use crate::state::{GeneratorStatus, State, generator_on, instant_in_range, minutes_until, seconds_until};
use crate::units::{decimal_digits, push_decimal};

verus! {

/// Marks the running generator as started by this program or not, which
/// decides whether the manager may stop it.
pub fn set_we_turned_it_on(state: &mut State, desire: bool)
    ensures
        *final(state) == (State { we_turned_it_on: desire, ..*old(state) }),
{
    if desire {
        state.turned_on();
    } else {
        state.turned_off();
    }
}

/// The values that the metrics page shows.
pub struct Metrics {
    pub do_not_run_generator: bool,
    pub generator_wanted: bool,
    /// In thousandths of an amp.
    pub shore_limit: i64,
    pub we_turned_it_on: bool,
    /// Whole seconds left on the charge timer; 0 without a timer.
    pub generator_on_timer_seconds: i64,
}

/// The values for the metrics page at instant `now`.
pub fn metrics(state: &State, now: i64) -> (m: Metrics)
    requires
        state.timer_in_range(),
        instant_in_range(now as int),
    ensures
        m.do_not_run_generator == state.config.do_not_run_generator,
        !m.generator_wanted,
        m.shore_limit == state.config.shore_limit,
        m.we_turned_it_on == state.we_turned_it_on,
        m.generator_on_timer_seconds == (match state.timer {
            Some(end) => seconds_until(end as int, now as int),
            None => 0,
        }),
{
    let timer = match state.timer_seconds_left(now) {
        Some(seconds) => seconds,
        None => 0,
    };
    Metrics {
        do_not_run_generator: state.config.do_not_run_generator,
        generator_wanted: generator_wanted(),
        shore_limit: state.config.shore_limit,
        we_turned_it_on: state.we_turned_it_on,
        generator_on_timer_seconds: timer,
    }
}

/// The values that the index page shows. Amps, volts and percentages are
/// in thousandths of their unit.
pub struct IndexPage {
    pub do_not_run_generator: bool,
    pub shore_limit: i64,
    pub we_turned_it_on: bool,
    pub generator_on: bool,
    /// Whole minutes left on the charge timer, if one is set.
    pub timer: Option<i64>,
    pub generator_limit: i64,
    pub low_voltage: i64,
    /// The minutes written out in decimal.
    pub low_voltage_charge_minutes: String,
    pub auto_start_soc: i64,
    pub stop_charge_soc: i64,
    /// The latest state of charge; `None` before the first reading.
    pub current_soc: Option<i64>,
}

/// The values for the index page at instant `now`, given what the gateway
/// reports of the generator.
pub fn index(state: &State, now: i64, generator: Option<GeneratorStatus>) -> (p: IndexPage)
    requires
        state.timer_in_range(),
        instant_in_range(now as int),
    ensures
        p.do_not_run_generator == state.config.do_not_run_generator,
        p.we_turned_it_on == state.we_turned_it_on,
        p.generator_on == generator_on(generator),
        p.timer == (match state.timer {
            Some(end) => Some(minutes_until(end as int, now as int) as i64),
            None => None,
        }),
        p.shore_limit == state.config.shore_limit,
        p.generator_limit == state.config.generator.limit,
        p.low_voltage == state.config.generator.low_voltage,
        p.low_voltage_charge_minutes@ == decimal_digits(
            state.config.generator.low_voltage_charge_minutes as nat,
        ),
        p.auto_start_soc == state.config.generator.auto_start_soc,
        p.stop_charge_soc == state.config.generator.stop_charge_soc,
        p.current_soc == state.last_soc,
{
    let generator_on = match generator {
        Some(GeneratorStatus::Running) => true,
        _ => false,
    };
    let mut minutes = String::new();
    push_decimal(&mut minutes, state.config.generator.low_voltage_charge_minutes as u64);
    assert(minutes@ =~= decimal_digits(state.config.generator.low_voltage_charge_minutes as nat));
    IndexPage {
        do_not_run_generator: state.config.do_not_run_generator,
        shore_limit: state.config.shore_limit,
        we_turned_it_on: state.we_turned_it_on,
        generator_on,
        timer: state.timer_minutes_left(now),
        generator_limit: state.config.generator.limit,
        low_voltage: state.config.generator.low_voltage,
        low_voltage_charge_minutes: minutes,
        auto_start_soc: state.config.generator.auto_start_soc,
        stop_charge_soc: state.config.generator.stop_charge_soc,
        current_soc: state.last_soc,
    }
}

} // verus!
