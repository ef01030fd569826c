# run_scope_backend

Backend of a simulated laser powder bed fusion monitor: it runs a recipe of
process stages, simulates plate temperature, chamber oxygen, recoater and
spatter readings, raises alerts, stores runs in SQLite and streams telemetry
over a WebSocket.

- `src/` is the verified library (Verus):
  - `simulator/anomaly.rs`: the alert rules of the anomaly detector (which
    alerts a tick raises, their severities, the latches that keep a condition
    from being reported twice) and the construction of an alert record;
  - `simulator/stage.rs`: detection of stage changes;
  - `simulator/engine.rs`: the seed of a run's noise generator and the labels
    of a simulator tick;
  - `ids.rs`: random identifiers and UTC time stamps, which report a failing
    random source or clock as `None`;
  - `api.rs`: the API's error replies and the rules for starting, aborting,
    faulting and completing runs;
  - `models.rs`: the wire types that carry no measurements.
- `app/` is the server around it: HTTP handlers, database, WebSocket, and the
  floating-point process model (PID controller, recipe sequencer, telemetry,
  timers of the detector), which hands its threshold readings to the library.
- `tests/` exercises the library.
