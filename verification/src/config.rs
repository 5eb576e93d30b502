use vstd::prelude::*;

verus! {

/// How to reach the MQTT broker of the Victron system.
#[derive(Clone)]
pub struct MqttCredentials {
    pub host: String,
    pub port: u16,
    pub user: String,
    pub password: String,
}

/// The Victron topics that this program reads and writes, without their
/// `N/`, `R/` or `W/` prefixes.
#[derive(Clone)]
pub struct MqttTopics {
    pub current_limit: String,
    pub shore_connected: String,
    pub soc: String,
}

/// When the generator runs and what it can deliver.
/// Amps, percentages and volts are held in thousandths of their unit.
#[derive(Clone)]
pub struct GeneratorConfig {
    /// AC input limit while the generator runs.
    pub limit: i64,
    /// State of charge at or below which the generator is started.
    pub auto_start_soc: i64,
    /// State of charge at or above which the generator is stopped again.
    pub stop_charge_soc: i64,
    /// Battery voltage at or below which a charge timer is started.
    pub low_voltage: i64,
    /// How long the generator runs after a low voltage reading.
    pub low_voltage_charge_minutes: u32,
}

/// The whole configuration of the generator manager.
#[derive(Clone)]
pub struct Config {
    /// AC input limit while on shore power, in thousandths of an amp.
    pub shore_limit: i64,
    pub mqtt: MqttCredentials,
    pub topics: MqttTopics,
    pub generator: GeneratorConfig,
    /// When set, the generator is never started, and one that this program
    /// started is stopped.
    pub do_not_run_generator: bool,
}

impl Config {
    /// Sets the shore AC limit to a whole number of amps.
    pub fn set_shore_limit(&mut self, new_shore_limit: u8)
        ensures
            final(self).shore_limit == new_shore_limit as int * 1000,
            final(self).mqtt == old(self).mqtt,
            final(self).topics == old(self).topics,
            final(self).generator == old(self).generator,
            final(self).do_not_run_generator == old(self).do_not_run_generator,
    {
        self.shore_limit = new_shore_limit as i64 * 1000;
    }

    /// Allows or forbids running the generator.
    pub fn set_do_not_run_generator(&mut self, desire: bool)
        ensures
            final(self).do_not_run_generator == desire,
            final(self).shore_limit == old(self).shore_limit,
            final(self).mqtt == old(self).mqtt,
            final(self).topics == old(self).topics,
            final(self).generator == old(self).generator,
    {
        self.do_not_run_generator = desire;
    }
}

} // verus!
