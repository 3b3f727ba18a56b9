# cship impact

The `cship.impact` statusline module shows how much a session has shipped, as a score
from 0 to 100. This crate is its core, written in Verus: every function states what it
does, and Verus proves that it does so. One function is believed and not proved:
`utf8_text` in `src/git.rs`, which calls `std::str::from_utf8`.

- `src/text.rs`: white space, lines, columns and decimal numbers
- `src/git.rs`: which git commands to run, and what their replies amount to
- `src/modules/impact.rs`: what is counted, kept and shown in a render
- `src/context.rs`, `src/config.rs`, `src/cache.rs`: the data that a render reads and writes
- `src/git_laws.rs`, `src/modules/impact_laws.rs`: what holds of all of it
- `app/`: runs git, does the floating-point weighing and drives the core

The core does no input or output. `read_raw` and `render` are called again and again
with what has been done so far; each call says what is to be done next.
