# rust_xs_test

A background routine that repeatedly builds and runs the XiangShan
processor simulator on an idle slice of the machine, with its decision
logic verified in Verus.

- `src/` is the verified library: configuration lookup (`config`), the
  command abstraction and its launch plans (`command`, `git`, `make`,
  `numactl`, `busybox`, `emu`, `just`), how a finished command is handled
  (`handle`), the search for idle CPUs (`numactl`), work-directory and clone
  names (`workload`), path joining (`paths`), the memory-header rewrite
  (`ram`), task selection (`tasks`), decimal writing (`text`) and the state
  machine of one test run (`worker`).
- `app/` is the program around it: reading `config.toml`, walking the image
  directory, starting processes, reading the CPU load, the thread pool,
  sleeping and logging.
- `tests/` exercises the library on concrete values.
