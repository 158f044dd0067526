# agnetd

The decision logic of the `agnetd` agent daemon and command line, written in
Verus. Every function in `src/` carries a contract. Verus proves them all but
those of the few `external_body` wrappers around calls into std and the `hex`
crate, whose contracts it takes on trust.

## Layout

- `src/text.rs`: string helpers (trimming, splitting, joining, decimal and hex
  rendering, UTF-8 boundaries, short DIDs) with their specifications.
- `src/security.rs`: input sanitisation and the circuit-breaker commands.
- `src/lifecycle.rs`: the agent lifecycle state machine and the reaper.
- `src/bounty.rs`: bounty states, escrow payouts, review verdicts, the checks
  of the bounty service and the bounty listings.
- `src/model.rs`: the model registry and the `model` commands.
- `src/dashboard.rs`: the terminal dashboard's key handling and display rules.
- `src/web.rs`: what the web pages show: bounty and feed views, histograms,
  grades, forms.
- `src/feed.rs`, `src/mesh.rs`, `src/knowledge.rs`, `src/discovery.rs`,
  `src/lineage.rs`, `src/verification.rs`, `src/token.rs`, `src/identity.rs`,
  `src/reputation.rs`, `src/training.rs`, `src/inference.rs`, `src/init.rs`,
  `src/system.rs`: the checks and computations of the other commands and API
  routes.
- `src/output.rs`, `src/api_error.rs`, `src/cli.rs`: what a command shows, the
  API's error kinds, and the command-line arguments as plain data.

The `law_*` proof functions state properties that span several functions
(round trips, invariants every step keeps).

`tests/` runs the library on concrete values. `app/` is the command-line
program around it: argument parsing with clap and printing as text or JSON.
It wires only the `security` commands; the others need the node's storage,
mesh and feed crates, which are not part of this project. It also holds the
dashboard's balance formatting, which divides in floating point.
