# opagent-core

The verified core of an operations agent daemon: clients submit operations
(shell commands, file reads/writes/deletes, git commands); a policy rates each
one as run-at-once, needs-approval or refused; approved operations are handed
to agents.

- `src/` is the library, checked by Verus: configuration and its defaults,
  the security rating, wire messages, the agents' decisions, the daemon's
  approval queue, and the string routines these rest on, with laws such as
  "denying a held task undoes its submission" and "a stricter policy never
  refuses less".
- `app/` holds the programs around it (the daemon, its command-line client
  and its HTTP front): sockets, processes, the file system, TOML and JSON.
  The program runs as the one its executable is named after: `opagentd`,
  `opagentctl` or `opagent-api`.
- `tests/` exercises the library on concrete values.
