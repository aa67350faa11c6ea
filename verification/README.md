# fly_ruler

The verified core of the fly_ruler flight-simulation system.

`src/` is a Verus library:

- `plugin`: plugin information, life-cycle states, the outcome of install and
  uninstall hooks, the manager of aerodynamic-model plugins (`plugin::manager`)
  and the laws every sequence of hooks obeys (`plugin::laws`);
- `manager`: the system's generic plugin manager (`AsPluginManager`) and its
  configuration paths;
- `clock`: the simulation clock, with time handed in by the caller;
- `rpc`: what the server does for each remote call of a client session, the
  run signal around pushing a plane, and the tick timeout;
- `planes`: the core's plane registry and the decisions of a run (controller
  check, per-plane steps, joining planes and cancelling on failure);
- `system`: the model side of the system and how it takes failures;
- `ffi`, `error`, `text`, `flight`, `config`: log levels, error values and
  their texts, library file names, flight conditions and path joining.

`app/` is the program around it: it scans the model directory, loads the
native model libraries, runs their hooks through the system and holds the
floating-point helpers of the flight model. `tests/` exercises the library.
