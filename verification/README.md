# generator_manager

Decides when to start and stop an RV generator from the battery's state of
charge, its voltage and a charge timer, and keeps the inverter's AC input
limit matched to the power source in use (shore or generator).

- `src/` is the verified library (Verus). Quantities are held in thousandths
  of their unit, instants in milliseconds since the Unix epoch.
  - `state`: the manager's state and the start/stop decision (`State::wanted`).
  - `generator`: readings, and the start and stop procedures as step functions
    that return the next outside action.
  - `mqtt`: the MQTT topics, payloads, QoS levels and retain flags for the
    Victron broker.
  - `notification`: reading the topic and value of an incoming MQTT message,
    and applying the reading to the state.
  - `lci`: finding the generator and its fuel tank among the gateway's devices.
  - `web`: what the web pages show, and the settings they change.
  - `units`: rounding of AC limits to half amps, and decimal digits.
  - `config`: the configuration.
- `app/` is the program around it: the LCI gateway, the MQTT broker, the web
  server, the configuration file and the main loop. It also writes numbers
  with one decimal place (the AC limit sent to the inverter, the web page),
  formatting them as floats.
- `tests/` exercises the library.
