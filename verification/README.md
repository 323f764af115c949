# hardy_monitor

A gym occupancy monitor: it polls the gym's occupancy endpoint, stores the
readings in PostgreSQL, repairs gaps in the stored series and derives
analytics and predictions from the hourly averages.

The crate is a Verus project.

- `src/` is the verified library, written in Verus: the calendar and date
  texts (`calendar`, `text`), the opening hours and Bavarian
  holidays (`schedule`), error classification (`error`), configuration
  defaults (`config`), the integer parts of the analytics (`analytics`), the
  timing of the fetch loop (`daemon`), the planning of the data repair
  (`repair`), the monitor's control decisions (`ui`), notifier test doubles
  (`traits`), and the cross-validation splits and hyperparameter grids of
  the prediction pipeline (`ml`). Verus proves every function there
  against its contract, except a few small trusted wrappers that call into
  `chrono`, `reqwest`, `sqlx` and `anyhow`: their contracts are assumed,
  some of them have none, and each one's doc comment says what it claims.
- `app/` is the program around it: command-line handling, configuration
  loading, HTTP and database access, logging, and the floating-point
  analytics and smoothing.
- `tests/` holds the tests of the library.
