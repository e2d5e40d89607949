# knotty

The core of a terminal emulator for macOS: the session a window drives, the
frames it publishes, the rules for what the child program may ask of the host,
and the C ABI a native app links against.

## Layout

- `src/` is the library, written in Verus. Every function in it carries a
  contract and is proved against it, except four small wrappers in `text.rs`
  around std's string and character calls, whose contracts restate what std
  documents and are trusted:
  - `writer`, `queue`, `mailbox`, `wake`, `sync` — the bounded queues, the
    latest-wins frame slot, the wake owed to a consumer, and the hold a
    synchronized output block puts on it;
  - `listener`, `screen`, `session` — what the child's requests come to, what
    of the screen is published, and the publish path that ties them together;
  - `snapshot`, `frame` — the published frame and the builder that fills it;
  - `key`, `mouse`, `terminal`, `pty` — input events, the decisions around
    encoding them, and the pseudoterminal loop's decisions;
  - `boundary`, `config` — the statuses and views of the C ABI, and the
    configuration schema;
  - `script`, `description`, `golden` — the replay harness: the script
    language, the text a session is described by, and the report that compares
    two descriptions.
- `tests/` exercises the library from outside.
- `app/` is plain Rust around it: the VT engine behind its C bindings, the
  pseudoterminal and its thread, the configuration file, and the exported
  `kt_*` functions. What it decides is taken from the library: it makes the
  engine and system calls, hands their answers to the library's verdicts, and
  makes the calls those verdicts ask for next.

The laws the library keeps across calls stand in `src/` as public proof
functions whose names begin with `law_`.
