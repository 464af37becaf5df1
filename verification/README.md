# tales_tree

The verified core of a collaborative story-writing service. Users write
story fragments, fork the published fragments of their friends, submit forks
to the parent's author for review, publish, like fragments and follow each
other. Each request is a command; its handler decides what to write and
which event to log, and the command bus runs it in one store transaction.

- `src/` is the library, verified with Verus:
  - `commons/`: identifiers (UUIDs), actors, time, fragment text, comments,
    and the kinds of commands and events;
  - `storage/model/`: the records (fragments with their lifecycle, likes,
    follows, reviews, users, log entries, scheduled tasks), and the store's
    like and follow rows as maps;
  - `events.rs`: the events and what each tells (kind, time, actor);
  - `command_bus/command/`: every command's decisions, each a function from
    what the store holds to what to write, with its exact contract, and each
    command's handler as a state machine over store calls and replies
    (`command_bus/handler.rs`): which read feeds which decision, which record
    is written, and that the event comes from the record as stored;
  - `command_bus/bus.rs`: scheduling, and the executor as a state machine
    (begin, handle, save the event, commit or roll back) with its laws;
  - `command_bus/laws.rs`: the fragment lifecycle that every command keeps,
    and how a dislike takes back a like and an unfollow a follow.
- `app/` is the service around it: the Postgres store (sqlx), the JSON forms
  of events and commands, the loop that makes each handler's store calls,
  and the bus that drives the executor.
- `tests/` runs the decisions and the executor on concrete values.
