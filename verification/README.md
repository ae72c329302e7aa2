# mcp_ssh

The verified core of an SSH adapter for AI agents: agents name a machine by
its alias and a command; the adapter looks the machine up in the manager's
database, checks the command against the machine's rules, and only then runs
it over SSH, logging every attempt.

- `src/constraints.rs` — the rule check (tokenizer, `read_only`, fail-close).
- `src/security.rs` — master key (hex in the keyring) and credential decryption.
- `src/manager_db.rs` — database records and handle.
- `src/tools.rs` — the `ssh_exec` and `get_host_info` tools as state machines.
- `src/rpc.rs` — JSON-RPC dispatch and replies.
- `src/ssh_auth.rs` — the order of SSH authentication attempts.
- `app/` — the program: CLI, MCP loop on stdin/stdout, SQLite, keyring, SSH.
