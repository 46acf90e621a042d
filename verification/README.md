# comelit_hub

A bridge between a Comelit home-automation hub and smart-home controllers
(HomeKit, Matter), with its decision logic verified by Verus.

- `src/` is the verified library: the hub's protocol codes, device records,
  the window-covering worker state machine, thermostat and dehumidifier
  command planning, door and light behaviour, the bridge bookkeeping shown by
  the web UI, metric updates, log rotation and cleanup choices, the pending
  request table, and the conversions and request routing of the Matter side.
  Every public function has a contract; the laws the library keeps are
  public proof functions next to the functions they speak of.
- `tests/` runs the library on concrete values.
- `app/` is the program around it: command line, logging set-up, settings
  file, web server and Prometheus exporter, and the tasks that perform what
  the library decides (hub commands, timers, storage).
