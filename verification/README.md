# bridge_backend

Backend of a wind-induced vibration monitoring and aerodynamic optimisation
system for ancient chain suspension bridges.

## Layout

- `src/` — the verified library (Verus). It holds everything of the service
  that is not floating-point physics or I/O:
  - catalogues of cable materials, design codes, wind-resistance measures,
    comfort and danger levels, alert types and severities, with their
    identifiers and names, proved complete and free of clashes;
  - the bridge catalogue and the lookup of a bridge by identifier;
  - the per-bridge model cache that keeps filter state between requests, and
    the registry of pending optimisation requests (a result is delivered at
    most once, abandoned requests are withdrawn);
  - the routing decisions of the channel workers and of alert publication,
    the de-duplication of alerts (an alert is dispatched when it is raised or
    changes severity, not again while it persists), the MQTT topics alerts
    are published on and the settings the MQTT client is opened with;
  - the first checks of a DTU payload, the order in which its readings are
    processed, the bounded history of reduced frequencies, the plate-count
    mutation step and the shape-type table of the optimiser, the InfluxDB
    queries.
- `app/` — the service around it: HTTP handlers, channels and workers,
  InfluxDB and MQTT I/O, Prometheus metrics, and the floating-point models
  (flutter derivatives, damping, genetic optimiser, crossing simulation,
  design-code checks).
- `tests/` — tests of the library.
