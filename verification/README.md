# SpecterOS core, verified

The decision logic of the SpecterOS services, written in Verus and proved
against its contracts.

- `src/` is the library. Each module states what its functions do over
  mathematical views (`Seq`, `Set`, `Map`) and proves it:
  - `airlock`: byte-level scrubbing of images and documents, MIME sniffing,
    the sanitizer chain, transfer sessions and their request handler;
  - `shard`: the shard lifecycle state machine and its request handler;
  - `net`: route profiles, the nftables backend's commands, the routing
    policy with its kill switch, leak checks and the request handler;
  - `guardian`: panic, mask and travel modes;
  - `policy`: allow rules, capability tokens, revocation and the request
    handler (the key ring's signatures and verdicts are handed in);
  - `update`: A/B slots and the update state machine;
  - `keys`: Ed25519 and X25519 keypairs (over `ed25519-dalek` and
    `x25519-dalek`) and key identifiers;
  - `config`, `layers`: settings with their defaults, runtime paths, the
    configuration layers and their deep merge (TOML parsed by `toml`);
  - `shell`: command-line words, themes, the shell's commands and its help
    screen;
  - `ipc`: callers and their roles; every request handler refuses a caller
    that lacks the role its request needs, and changes nothing then;
  - `audit`, `collections`, `text`, `paths`, `signing`, `isolation`:
    audit events, string-keyed maps and sets, string helpers, path joins,
    signature envelopes, desktop shard isolation.
- `app/` is the program around it: the interactive shell, process spawning
  for the network backend, configuration files and runtime directories on
  disk, and the daemons' start-up.
- `tests/` runs the library on concrete inputs.
