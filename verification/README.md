# psistats

Psistats is a small, plugin-based reporter of system statistics (CPU and
memory usage, uptime, network addresses, sensors, weather), in the spirit of
collectd. Reporter plugins produce values on configured intervals or on
command; publisher plugins hand every report on (to a log, to MQTT).

This crate is written in Verus. The library under `src/` carries the
project's logic with contracts that Verus proves:

- `table`, `config_value`, `text`: a name-keyed table with distinct names,
  TOML-shaped configuration values, and string helpers.
- `libpsistats`: the plugin interface (functions, registrar, reports,
  settings, errors, library file names).
- `service`: the service's configuration lookups, host name, start-up and
  the four workers (schedule, reporter, publisher, command).
- `schedule`: grouping reporters by interval and choosing the due ones.
- `service_api`: the plugin service's configuration, registries, loaders and
  managers.
- `plugins`: the logic of the bundled plugins (weather feed parsing,
  sensors, MQTT settings, memory and OS reports).
- `legacy`: the first generation's built-in reporters, publishers and
  managers.

`app/` holds the programs around the library: argument handling, reading
the configuration file, loading plugin libraries, threads and channels,
and the plugins' system calls.
