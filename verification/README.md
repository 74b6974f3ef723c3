# solace-session

A messaging session on top of the Solace C client, with its decisions verified in Verus.

- `src/` is the verified library. It makes no call into the C client. An operation opens with a
  step: either it is over, or a call is to be made and its reply handed back. The contracts fix
  which call comes next, with which arguments, and what the replies add up to.
  - `session` holds the operations, `disconnect` the one that ends a session, `step` what they wait for, `call` the calls and replies;
  - `properties`, `config`, `decimal` and `ctext` hold what the calls are made with;
  - `return_code` and `error` hold what comes back;
  - `run` states what whole operations do, for all replies.
- `app/` makes the calls, owns the callbacks and logs.
- `tests/` runs the library on concrete replies.
