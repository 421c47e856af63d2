# benchmark_runner

The logic of a benchmark runner for zkVMs, written in Verus: what a command line
amounts to, where results, proofs and dumped inputs are filed, how one fixture
and a whole benchmark proceed, how fixtures are picked and turned into the input
of the `zisk-eth-client` guest, and what the reports finally say. The functions
in `src/` carry contracts that Verus proves. They rest on ten small functions
marked `#[verifier::external_body]`, which call `humantime`, `hex`, `bincode`,
`serde_json`, `alloy` and std and whose contracts are trusted: `humantime_parse`,
`hex_encode`, `quoted`, `utf8_text`, `keccak256`, `recover_from_prehash`,
`encode_block_hash`, `encode_public_keys`, `encode_witness` and
`encode_chain_config`.

Work that touches the outside world is described rather than done: a machine
(`process`, `iteration`, `instances`, `guests`) names the next stage, the caller
performs it and hands back the event.

- `src/cli.rs`, `src/plan.rs`, `src/duration.rs`: options, the conflicts among
  them, timeouts, and the plan of a benchmark
- `src/runner.rs`, `src/text.rs`: configuration of a run and its paths
- `src/zkvm.rs`, `src/guests.rs`, `src/instances.rs`: zkVM instances, compiled
  guests and how they are made
- `src/process.rs`, `src/process_laws.rs`, `src/iteration.rs`: the course of a
  fixture and of a benchmark, and what holds of every course
- `src/output.rs`, `src/metrics.rs`, `src/guest_programs.rs`: fixtures, the
  comparison of public values, reports
- `src/zisk_eth_client.rs`, `src/reth_input.rs`: selection and conversion of
  fixtures
- `tests/`: the library on concrete values
- `app/`: the command line program around the library

Functions named `law_*` state what holds across several functions.
