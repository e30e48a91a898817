# rubyx

Verified core of a Ruby extension that embeds Python: evaluating Python
snippets from Ruby, calling Python objects with Ruby arguments, converting
values both ways, and streaming the items of Python iterators and async
generators to Ruby through channels.

## Layout

- `src/` — the library, verified with Verus. Every decision taken between
  calls into the Python interpreter or the Ruby VM is here, with its
  contract: how a missing Ruby method is dispatched (`rubyx_object`), how a
  snippet is evaluated and split at its last expression (`eval`), how
  values are converted (`value`, `convert`), what each step of a streaming
  worker sends (`async_gen`, `nonblocking_stream`, `gvl`, `future`,
  `channel`), where the Python library is looked for (`python_finder`),
  and the error messages raised (`exception`). Calls into crossbeam's
  channels go through the trusted wrappers in `channel.rs`.
- `tests/` — tests of the library on concrete values.
- `app/` — the unverified shell: Ruby bindings (magnus), the interpreter
  calls, threads, pipes and the loops that alternate outside work with
  the library's decisions.
