# sandman

An agent swarm that coordinates through a shared, time-ordered queue of
Tasks. Workers in four Roles (research, planning, memory, task manager) take
Tasks off the queue one model call at a time; a Comms Session talks to the
human over a Channel; metacognition reviews and interrupts Workers.

## Layout

- `src/` — the library, verified with Verus: the domain types and their
  checks, the scheduler's slot queue, the Store's rules (completion,
  cancellation, recovery, cron firing, listing, spend), the Harness's and the
  Turn loop's decisions, metacognition, the tools' argument checks and
  replies, the log's wording, configuration expansion, the control socket's
  requests, and the bench's checks and reports.
- `tests/` — tests of the library on concrete values.
- `app/` — the `sandman` program: command line, configuration file, SQLite,
  the model endpoint over HTTP, the control socket, the terminal Channel and
  the async loops that carry out what the library decides.

## Running

`sandman serve` reads its configuration (`--config`, else
`$XDG_CONFIG_HOME/sandman/config.toml`) and the prompt texts from a `prompts/`
directory beside it: `mechanics.md`, `comms-session.md`, `research.md`,
`planning.md`, `memory.md`, `task_manager.md`, `meta.md`, `review-prompt.md`
and `interrupt-prompt.md`. The terminal is the only Channel this program
attaches. `sandman task`, `sandman list` and `sandman spend` talk to a running
Sandman over its control socket and never open the database.
