use vstd::prelude::*;
use crate::config::Config;

verus! {

/// The discrete state that the LCI gateway reports for the generator.
#[derive(PartialEq, Eq, Structural, Clone, Copy, Debug)]
pub enum GeneratorStatus {
    Off,
    Priming,
    Starting,
    Running,
}

/// What the manager wants done with the generator.
#[derive(PartialEq, Eq, Structural, Clone, Copy, Debug)]
pub enum DesiredGeneratorState {
    On,
    Off,
    InDesiredState,
}

/// The earliest instant, in milliseconds since the Unix epoch, that a UTC date-time can hold.
pub const MIN_INSTANT_MS: i64 = -8334601315200000i64;

/// The latest instant, in milliseconds since the Unix epoch, that a UTC date-time can hold.
pub const MAX_INSTANT_MS: i64 = 8210266876799999i64;

/// Milliseconds in a minute.
pub const MS_PER_MINUTE: i64 = 60000i64;

/// An instant that a UTC date-time can represent.
pub open spec fn instant_in_range(ms: int) -> bool {
    MIN_INSTANT_MS <= ms <= MAX_INSTANT_MS
}

/// The instant `minutes` after `now`.
pub open spec fn minutes_after(now: int, minutes: int) -> int {
    now + minutes * MS_PER_MINUTE
}

/// Whether a generator reading says that it runs.
pub open spec fn generator_on(generator: Option<GeneratorStatus>) -> bool {
    generator == Some(GeneratorStatus::Running)
}

/// Integer division that rounds toward zero, for a positive divisor.
pub open spec fn div_toward_zero(a: int, b: int) -> int {
    if a >= 0 {
        a / b
    } else {
        -((-a) / b)
    }
}

/// Everything that the manager keeps between events. Amps, percentages,
/// volts and watts are in thousandths of their unit; instants are in
/// milliseconds since the Unix epoch.
#[derive(Clone)]
pub struct State {
    /// The AC input limit that the inverter last reported, rounded to a half amp.
    pub ac_input: i64,
    pub config: Config,
    pub last_soc: Option<i64>,
    pub last_voltage: Option<i64>,
    pub last_batt_wattage: Option<i64>,
    /// Whether this program started the generator that runs now.
    pub we_turned_it_on: bool,
    pub shore_available: bool,
    /// When the charge timer ends, if one is set.
    pub timer: Option<i64>,
}

impl State {
    /// The latest state of charge is at or below the auto start level.
    pub open spec fn low_battery(self) -> bool {
        self.last_soc matches Some(soc) && soc <= self.config.generator.auto_start_soc
    }

    /// The latest battery voltage is at or below the low voltage level.
    pub open spec fn low_voltage(self) -> bool {
        self.last_voltage matches Some(v) && v <= self.config.generator.low_voltage
    }

    /// The latest state of charge is at or above the level where charging stops.
    pub open spec fn battery_charged(self) -> bool {
        self.last_soc matches Some(soc) && soc >= self.config.generator.stop_charge_soc
    }

    /// The battery is charging already.
    pub open spec fn already_charging(self) -> bool {
        self.last_batt_wattage matches Some(w) && w > 0
    }

    /// The generator can feed more current than the shore connection.
    pub open spec fn generator_is_better_than_shore(self) -> bool {
        self.config.generator.limit > self.config.shore_limit
    }

    /// The charge timer, if any, lies in the range of UTC date-times.
    pub open spec fn timer_in_range(self) -> bool {
        self.timer matches Some(end) ==> instant_in_range(end as int)
    }

    /// What `wanted` may need: a low voltage reading starts a timer that must
    /// end at a representable instant.
    pub open spec fn wanted_defined(self, now: int) -> bool {
        self.low_voltage() ==> (instant_in_range(now) && instant_in_range(
            minutes_after(now, self.config.generator.low_voltage_charge_minutes as int),
        ))
    }

    /// The timer once `wanted` has looked at it at instant `now`: a low voltage
    /// reading (re)starts it, and an expired one is removed.
    pub open spec fn timer_after_check(self, now: int) -> Option<i64> {
        if self.low_voltage() {
            Some(minutes_after(now, self.config.generator.low_voltage_charge_minutes as int) as i64)
        } else if self.timer matches Some(end) && end <= now {
            None
        } else {
            self.timer
        }
    }

    /// The state after `wanted`: the timer is checked, and a generator that is
    /// not running was not started by us (any more).
    pub open spec fn after_wanted(self, now: int, generator: Option<GeneratorStatus>) -> State {
        State {
            timer: self.timer_after_check(now),
            we_turned_it_on: self.we_turned_it_on && generator_on(generator),
            ..self
        }
    }

    /// The conditions under which the generator is to be started.
    pub open spec fn wants_on(self, now: int, generator: Option<GeneratorStatus>) -> bool {
        &&& (self.low_battery() || self.low_voltage() || self.timer_after_check(now) is Some)
        &&& !self.already_charging()
        &&& !self.config.do_not_run_generator
        &&& !generator_on(generator)
        &&& (!self.shore_available || self.generator_is_better_than_shore())
    }

    /// The conditions under which the generator is to be stopped: we started it,
    /// it runs, and either running it is forbidden or the battery is charged and
    /// no timer is pending.
    pub open spec fn wants_off(self, now: int, generator: Option<GeneratorStatus>) -> bool {
        &&& generator_on(generator)
        &&& self.we_turned_it_on
        &&& (self.config.do_not_run_generator || (self.battery_charged()
            && self.timer_after_check(now) is None))
    }

    /// The decision of `wanted`.
    pub open spec fn desired(self, now: int, generator: Option<GeneratorStatus>) -> DesiredGeneratorState {
        if self.wants_on(now, generator) {
            DesiredGeneratorState::On
        } else if self.wants_off(now, generator) {
            DesiredGeneratorState::Off
        } else {
            DesiredGeneratorState::InDesiredState
        }
    }
}

} // verus!

verus! {

impl State {
    /// A fresh state: nothing measured yet, no timer, generator not ours.
    pub fn new(config: Config) -> (s: State)
        ensures
            s == (State {
                ac_input: 0,
                config,
                last_soc: None,
                last_voltage: None,
                last_batt_wattage: None,
                we_turned_it_on: false,
                shore_available: false,
                timer: None,
            }),
    {
        State {
            ac_input: 0,
            config,
            last_soc: None,
            last_voltage: None,
            last_batt_wattage: None,
            we_turned_it_on: false,
            shore_available: false,
            timer: None,
        }
    }

    /// Records the AC input limit that the inverter reported.
    pub fn set_ac_limit(&mut self, input: i64)
        ensures
            *final(self) == (State { ac_input: input, ..*old(self) }),
    {
        self.ac_input = input;
    }

    /// Records a state of charge reading.
    pub fn set_last_soc(&mut self, input: i64)
        ensures
            *final(self) == (State { last_soc: Some(input), ..*old(self) }),
    {
        self.last_soc = Some(input);
    }

    /// Records a battery voltage reading.
    pub fn set_last_voltage(&mut self, input: i64)
        ensures
            *final(self) == (State { last_voltage: Some(input), ..*old(self) }),
    {
        self.last_voltage = Some(input);
    }

    /// Records a battery power reading.
    pub fn set_last_batt_wattage(&mut self, input: i64)
        ensures
            *final(self) == (State { last_batt_wattage: Some(input), ..*old(self) }),
    {
        self.last_batt_wattage = Some(input);
    }

    /// Notes that this program started the generator.
    pub fn turned_on(&mut self)
        ensures
            *final(self) == (State { we_turned_it_on: true, ..*old(self) }),
    {
        self.we_turned_it_on = true;
    }

    /// Notes that the generator is not (any more) one that this program started.
    pub fn turned_off(&mut self)
        ensures
            *final(self) == (State { we_turned_it_on: false, ..*old(self) }),
    {
        self.we_turned_it_on = false;
    }

    /// Records whether shore power is connected.
    pub fn set_shore_availability(&mut self, val: bool)
        ensures
            *final(self) == (State { shore_available: val, ..*old(self) }),
    {
        self.shore_available = val;
    }

    /// Starts a charge timer that ends `minutes` after `now`.
    pub fn set_timer(&mut self, now: i64, minutes: i64)
        requires
            instant_in_range(now as int),
            instant_in_range(minutes_after(now as int, minutes as int)),
        ensures
            *final(self) == (State { timer: Some((now + minutes * 60000) as i64), ..*old(self) }),
    {
        self.timer = Some(now + minutes * MS_PER_MINUTE);
    }

    /// Decides what to do with the generator, given the instant `now` and what
    /// the gateway reports of the generator (`None` when it could not be read).
    /// On the way it removes an expired timer, starts the low voltage timer and
    /// forgets that we started a generator that no longer runs.
    pub fn wanted(&mut self, now: i64, generator: Option<GeneratorStatus>) -> (d: DesiredGeneratorState)
        requires
            old(self).wanted_defined(now as int),
        ensures
            *final(self) == old(self).after_wanted(now as int, generator),
            d == old(self).desired(now as int, generator),
    {
        if let Some(end_time) = self.timer {
            if end_time <= now {
                self.timer = None;
            }
        }

        let gen_on = match generator {
            Some(GeneratorStatus::Running) => true,
            _ => false,
        };
        if !gen_on && self.we_turned_it_on {
            self.we_turned_it_on = false;
        }

        let low_battery = match self.last_soc {
            Some(soc) => soc <= self.config.generator.auto_start_soc,
            None => false,
        };

        let low_voltage = match self.last_voltage {
            Some(voltage) => voltage <= self.config.generator.low_voltage,
            None => false,
        };

        if low_voltage {
            let minutes = self.config.generator.low_voltage_charge_minutes as i64;
            self.set_timer(now, minutes);
        }

        let generator_is_better_than_shore = self.config.generator.limit > self.config.shore_limit;
        let already_charging = match self.last_batt_wattage {
            Some(x) => x > 0,
            None => false,
        };

        let charging_conditions = (low_battery || low_voltage || self.timer.is_some())
            && !already_charging && !self.config.do_not_run_generator && !gen_on && (
        !self.shore_available || generator_is_better_than_shore);
        if charging_conditions {
            return DesiredGeneratorState::On;
        }

        if gen_on && self.we_turned_it_on && self.config.do_not_run_generator {
            return DesiredGeneratorState::Off;
        }

        let battery_charged_soc = match self.last_soc {
            Some(soc) => soc >= self.config.generator.stop_charge_soc,
            None => false,
        };

        let off_conditions = gen_on && self.we_turned_it_on && battery_charged_soc
            && self.timer.is_none();
        if off_conditions {
            return DesiredGeneratorState::Off;
        }

        DesiredGeneratorState::InDesiredState
    }
}

} // verus!
verus! {

/// The manager asks to start the generator only when it is not read as
/// running, running it is allowed, the battery's last power reading (if any)
/// is not positive, shore power is off or weaker than the generator, and the
/// battery is low, the voltage is low or a charge timer is still pending.
pub proof fn lemma_start_only_when_allowed(s: State, now: int, generator: Option<GeneratorStatus>)
    requires
        s.desired(now, generator) == DesiredGeneratorState::On,
    ensures
        generator != Some(GeneratorStatus::Running),
        !s.config.do_not_run_generator,
        s.last_batt_wattage matches Some(w) ==> w <= 0,
        !s.shore_available || s.config.generator.limit > s.config.shore_limit,
        (s.last_soc matches Some(x) && x <= s.config.generator.auto_start_soc)
            || (s.last_voltage matches Some(v) && v <= s.config.generator.low_voltage)
            || (s.timer matches Some(end) && end > now),
{
}

/// The manager asks to stop only a generator that is read as running and that
/// it started itself, and then only when running is forbidden, or when the
/// state of charge reached the stop level with no low voltage and no charge
/// timer pending. In particular, while running is allowed, a generator is never
/// stopped below the stop level.
pub proof fn lemma_stop_only_what_we_started(s: State, now: int, generator: Option<GeneratorStatus>)
    requires
        s.desired(now, generator) == DesiredGeneratorState::Off,
    ensures
        generator == Some(GeneratorStatus::Running),
        s.we_turned_it_on,
        s.after_wanted(now, generator).we_turned_it_on,
        s.config.do_not_run_generator || {
            &&& s.last_soc matches Some(x) && x >= s.config.generator.stop_charge_soc
            &&& !(s.last_voltage matches Some(v) && v <= s.config.generator.low_voltage)
            &&& !(s.timer matches Some(end) && end > now)
        },
{
}

/// While running is allowed, a state of charge below the stop level (or none
/// measured yet) never stops the generator; so a generator started for a low
/// battery keeps running while the battery is still low.
pub proof fn lemma_not_stopped_before_charged(s: State, now: int, generator: Option<GeneratorStatus>)
    requires
        !s.config.do_not_run_generator,
        !(s.last_soc matches Some(x) && x >= s.config.generator.stop_charge_soc),
    ensures
        s.desired(now, generator) != DesiredGeneratorState::Off,
{
}

/// Forbidding the generator stops the running generator that this program
/// started, whatever the timer, the voltage and the state of charge.
pub proof fn lemma_forbidden_stops_ours(s: State, now: int, generator: Option<GeneratorStatus>)
    requires
        s.config.do_not_run_generator,
        generator == Some(GeneratorStatus::Running),
        s.we_turned_it_on,
    ensures
        s.desired(now, generator) == DesiredGeneratorState::Off,
{
}

/// A battery whose last power reading is positive is charging already, and
/// the generator is not started for it.
pub proof fn lemma_charging_battery_not_started(s: State, now: int, generator: Option<GeneratorStatus>)
    requires
        s.last_batt_wattage matches Some(w) && w > 0,
    ensures
        s.desired(now, generator) != DesiredGeneratorState::On,
{
}

/// At or below the auto start level the generator is started when it is not
/// read as running, running it is allowed, the battery's last power reading
/// (if any) is zero or negative (a discharging battery is not charging), and
/// shore power is off or weaker than the generator.
pub proof fn lemma_low_battery_starts(s: State, now: int, generator: Option<GeneratorStatus>)
    requires
        s.last_soc matches Some(x) && x <= s.config.generator.auto_start_soc,
        s.last_batt_wattage matches Some(w) ==> w <= 0,
        !s.config.do_not_run_generator,
        generator != Some(GeneratorStatus::Running),
        !s.shore_available || s.config.generator.limit > s.config.shore_limit,
    ensures
        s.desired(now, generator) == DesiredGeneratorState::On,
{
}

/// Shore power that is connected and at least as strong as the generator
/// keeps the generator from being started.
pub proof fn lemma_strong_shore_not_started(s: State, now: int, generator: Option<GeneratorStatus>)
    requires
        s.shore_available,
        s.config.generator.limit <= s.config.shore_limit,
    ensures
        s.desired(now, generator) != DesiredGeneratorState::On,
{
}

/// A generator that we started is stopped once the battery reached the stop
/// charge level, when no timer is pending and the voltage is not low.
pub proof fn lemma_charged_battery_stops(s: State, now: int, generator: Option<GeneratorStatus>)
    requires
        generator == Some(GeneratorStatus::Running),
        s.we_turned_it_on,
        s.last_soc matches Some(x) && x >= s.config.generator.stop_charge_soc,
        !(s.last_voltage matches Some(v) && v <= s.config.generator.low_voltage),
        s.timer matches Some(end) ==> end <= now,
    ensures
        s.desired(now, generator) == DesiredGeneratorState::Off,
        s.after_wanted(now, generator).timer is None,
{
}

/// Between the two levels, with no timer and no low voltage, a generator that
/// we may run is left as it is.
pub proof fn lemma_hysteresis(s: State, now: int, generator: Option<GeneratorStatus>)
    requires
        s.last_soc matches Some(soc) && s.config.generator.auto_start_soc < soc
            < s.config.generator.stop_charge_soc,
        !(s.last_voltage matches Some(v) && v <= s.config.generator.low_voltage),
        s.timer is None,
        !s.config.do_not_run_generator,
    ensures
        s.desired(now, generator) == DesiredGeneratorState::InDesiredState,
{
}

/// A low voltage reading always leaves a timer running until the configured
/// number of minutes after `now`.
pub proof fn lemma_low_voltage_sets_timer(s: State, now: int, generator: Option<GeneratorStatus>)
    requires
        s.last_voltage matches Some(v) && v <= s.config.generator.low_voltage,
    ensures
        s.after_wanted(now, generator).timer == Some(
            (now + s.config.generator.low_voltage_charge_minutes * 60000) as i64,
        ),
{
}

/// What a decision changes: a generator not read as running no longer counts
/// as ours, a timer that has ended is removed (unless the voltage is low), and
/// nothing else changes.
pub proof fn lemma_wanted_changes(s: State, now: int, generator: Option<GeneratorStatus>)
    ensures
        s.after_wanted(now, generator).we_turned_it_on == (s.we_turned_it_on && generator == Some(
            GeneratorStatus::Running,
        )),
        !(s.last_voltage matches Some(v) && v <= s.config.generator.low_voltage) ==> s.after_wanted(
            now,
            generator,
        ).timer == (if s.timer matches Some(end) && end <= now {
            None
        } else {
            s.timer
        }),
        s.after_wanted(now, generator).ac_input == s.ac_input,
        s.after_wanted(now, generator).config == s.config,
        s.after_wanted(now, generator).last_soc == s.last_soc,
        s.after_wanted(now, generator).last_voltage == s.last_voltage,
        s.after_wanted(now, generator).last_batt_wattage == s.last_batt_wattage,
        s.after_wanted(now, generator).shore_available == s.shore_available,
{
}

/// Deciding twice at the same instant with the same generator reading gives
/// the same decision and leaves the state as the first decision left it.
pub proof fn lemma_wanted_idempotent(s: State, now: int, generator: Option<GeneratorStatus>)
    ensures
        s.after_wanted(now, generator).after_wanted(now, generator) == s.after_wanted(now, generator),
        s.after_wanted(now, generator).desired(now, generator) == s.desired(now, generator),
        s.wanted_defined(now) ==> s.after_wanted(now, generator).wanted_defined(now),
{
    let t = s.after_wanted(now, generator);
    assert(t.low_voltage() == s.low_voltage());
    assert(t.timer_after_check(now) == s.timer_after_check(now));
}

} // verus!

verus! {

/// Whole seconds from `now` until the end of the timer, rounded toward zero
/// (negative once it has passed).
pub open spec fn seconds_until(end: int, now: int) -> int {
    div_toward_zero(end - now, 1000)
}

/// Whole minutes from `now` until the end of the timer, rounded toward zero.
pub open spec fn minutes_until(end: int, now: int) -> int {
    div_toward_zero(seconds_until(end, now), 60)
}

fn div_toward_zero_exec(a: i64, b: i64) -> (r: i64)
    requires
        b > 0,
        a > i64::MIN,
    ensures
        r == div_toward_zero(a as int, b as int),
{
    if a >= 0 {
        a / b
    } else {
        -((-a) / b)
    }
}

impl State {
    /// Whole seconds left on the charge timer, if one is set.
    pub fn timer_seconds_left(&self, now: i64) -> (r: Option<i64>)
        requires
            self.timer_in_range(),
            instant_in_range(now as int),
        ensures
            r == (match self.timer {
                Some(end) => Some(seconds_until(end as int, now as int) as i64),
                None => None,
            }),
    {
        match self.timer {
            Some(end) => Some(div_toward_zero_exec(end - now, 1000)),
            None => None,
        }
    }

    /// Whole minutes left on the charge timer, if one is set.
    pub fn timer_minutes_left(&self, now: i64) -> (r: Option<i64>)
        requires
            self.timer_in_range(),
            instant_in_range(now as int),
        ensures
            r == (match self.timer {
                Some(end) => Some(minutes_until(end as int, now as int) as i64),
                None => None,
            }),
    {
        match self.timer {
            Some(end) => {
                let seconds = div_toward_zero_exec(end - now, 1000);
                Some(div_toward_zero_exec(seconds, 60))
            },
            None => None,
        }
    }
}

} // verus!

verus! {

/// A charge timer that has not ended keeps the generator wanted, unless it runs
/// already, the battery charges already, running it is forbidden, or shore
/// power is connected and at least as strong.
pub proof fn lemma_timer_keeps_generator_wanted(s: State, now: int, generator: Option<GeneratorStatus>)
    requires
        s.timer matches Some(end) && now < end,
        s.last_batt_wattage matches Some(w) ==> w <= 0,
        !s.config.do_not_run_generator,
        generator != Some(GeneratorStatus::Running),
        !s.shore_available || s.config.generator.limit > s.config.shore_limit,
    ensures
        s.desired(now, generator) == DesiredGeneratorState::On,
{
}

/// Once its end has come, a charge timer is removed, unless the voltage is low.
pub proof fn lemma_expired_timer_removed(s: State, now: int, generator: Option<GeneratorStatus>)
    requires
        s.timer matches Some(end) && end <= now,
        !(s.last_voltage matches Some(v) && v <= s.config.generator.low_voltage),
    ensures
        s.after_wanted(now, generator).timer is None,
{
}

} // verus!

verus! {

/// The seconds left on a timer are the milliseconds left divided by a
/// thousand and rounded toward zero; the minutes left are the seconds left
/// divided by sixty and rounded toward zero.
pub proof fn lemma_time_left_rounds_toward_zero(end: int, now: int)
    ensures
        end >= now ==> 0 <= seconds_until(end, now) * 1000 <= end - now < seconds_until(end, now)
            * 1000 + 1000,
        end < now ==> seconds_until(end, now) <= 0 && seconds_until(end, now) * 1000 - 1000 < end - now
            <= seconds_until(end, now) * 1000,
        seconds_until(end, now) >= 0 ==> 0 <= minutes_until(end, now) * 60 <= seconds_until(end, now)
            < minutes_until(end, now) * 60 + 60,
        seconds_until(end, now) < 0 ==> minutes_until(end, now) <= 0 && minutes_until(end, now) * 60
            - 60 < seconds_until(end, now) <= minutes_until(end, now) * 60,
{
}

/// A timer started for `minutes` minutes reads back, at the instant it was
/// started, as exactly that many minutes, or sixty times as many seconds.
pub proof fn lemma_timer_reads_back(now: int, minutes: int)
    ensures
        seconds_until(minutes_after(now, minutes), now) == minutes * 60,
        minutes_until(minutes_after(now, minutes), now) == minutes,
{
    if minutes >= 0 {
        assert((minutes * 60000) / 1000 == minutes * 60) by (nonlinear_arith)
            requires minutes >= 0;
        assert((minutes * 60) / 60 == minutes) by (nonlinear_arith)
            requires minutes >= 0;
    } else {
        let m = -minutes;
        assert((m * 60000) / 1000 == m * 60) by (nonlinear_arith)
            requires m > 0;
        assert((m * 60) / 60 == m) by (nonlinear_arith)
            requires m > 0;
        assert(-(minutes * 60000) == m * 60000);
        assert(-(minutes * 60) == m * 60);
    }
}

} // verus!

verus! {

/// Whether an instant lies in the range of UTC date-times.
pub fn instant_representable(ms: i64) -> (r: bool)
    ensures
        r == instant_in_range(ms as int),
{
    MIN_INSTANT_MS <= ms && ms <= MAX_INSTANT_MS
}

impl State {
    /// Whether the charge timer, if any, lies in the range of UTC date-times.
    pub fn timer_representable(&self) -> (r: bool)
        ensures
            r == self.timer_in_range(),
    {
        match self.timer {
            Some(end) => instant_representable(end),
            None => true,
        }
    }
}

} // verus!
