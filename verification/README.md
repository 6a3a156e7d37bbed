# u2secure

A hardening tool for Linux servers. It audits the host (SSH port, root and
password login, sudo users, firewall, fail2ban, automatic updates, package
cache age), lets the operator pick hardening steps, runs them in a fixed order,
and rolls every registered change back, most recent first, when a step fails or
the operator presses Ctrl+C.

The logic is a Verus library whose functions carry `requires`/`ensures`
contracts checked by the verifier; the program around it does the terminal and
host input/output.

## Layout

- `src/` — the verified library
  - `text.rs` — character-sequence model of strings (trim, search, replace,
    lines, decimal numbers) with executable helpers proved against it
  - `i18n.rs` — the message tables in three languages, key lookup, and the
    once-chosen interface language
  - `table_laws.rs` — what holds of the tables together: the Chinese names agree
    with the step labels, state icons and manager names, and each entry's
    placeholders appear in all three languages
  - `domain/` — audit items and report, step kinds and results, errors,
    undo actions and the host operations they stand for
  - `infrastructure/system.rs` — reading and rewriting `sshd_config`, turning
    probe outputs into audit facts, building the audit report, suggesting a port
  - `infrastructure/rollback.rs` — the undo stack (last in, first out; one
    rollback at a time)
  - `infrastructure/logger.rs` — log lines, with public keys redacted
  - `application/steps.rs` — what each step checks, which commands it runs and
    what it reports
  - `application/flows.rs` — each step as a machine: the next host operation,
    and what follows from how the last one went
  - `application/orchestrator.rs` — the run as a state machine: steps in
    order, stop and roll back on failure or interruption
  - `presentation/` — prompt validation, the step list, the dialogs and keys of
    the terminal interface
- `app/` — the program: argument handling, prompts, the terminal interface,
  the clock, running commands, files, the Ctrl+C handler
- `tests/` — tests of the library

The laws that relate several operations (rollback order, read-after-write of
`sshd_config`, the run state machine, the audit seeing what a step wrote) are
public proof functions named `law_*` next to the code they are about.
