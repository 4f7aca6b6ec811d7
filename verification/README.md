# jobs

A job runner: authenticated users spawn commands on a server, follow their output, query their
state and kill them over a gRPC service secured with mutual TLS.

- `src/` is the verified library (Verus). It holds the runner's decisions with their contracts:
  who may see a job (`proc::coord::access`), the job tracking loop (`proc::coord::tracker`), the
  output broadcaster and per-reader relays (`proc::coord::broadcast`, `proc::coord::feed`,
  `proc::coord::relay`), clock readings and time-ordered job ids (`proc::clock`),
  request validation and the conversion of jobs and errors into wire messages and statuses
  (`grpc`, `pb`), and the platform-independent parts of spawning on Windows
  (`proc::spawn::win`).
- `app/` is the program around it: the tonic service and client, the tokio tasks that drive the
  library's state machines, process spawning, and the command line (`server` and `client`
  subcommands).
- `tests/` runs the library on concrete values.
