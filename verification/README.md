# soliloquy_js

A verified model of the engine glue behind the Soliloquy browser's
JavaScript bindings, and of the Soliloquy script bridge that answers simple
evaluations without the engine.

- `src/` is the library, written in Verus. Every function there carries a
  contract that Verus proves, except the few `#[verifier::external_body]`
  wrappers around the `url` and `indexmap` crates and two std calls
  (`String::push`, `str::from_utf8`): their contracts are trusted, stated
  from those crates' documented behaviour, and everything built on them is
  proved against them.
  - `jsval`, `types`, `descriptor`, `props`, `text`: values, ids, property
    descriptors, property tables and text helpers.
  - `v8_glue`: the engine glue's state (objects, realms, strings,
    properties, arrays, buffers and views, slots, functions, promises,
    proxies, scripts) as a mathematical model, with laws such as
    read-after-write for properties, elements and slots.
  - `jsapi`, `glue`, `realms`, `runtime`, `gc`, `record`: the entry points
    the DOM bindings call, answered by the glue.
  - `bridge`, `script`, `evaluator`: per-webview snapshots, the bridge's
    commands and targets, the local dispatcher and the evaluator's
    decisions.
  - `urls`, `os_protocol`, `optimizations`: URL handling through the `url`
    crate, the `os://` rewrite, and the shell's optimization bookkeeping.
- `app/` is the embedder around it: process-wide state, the environment
  switch, numbers (`f64`), messages to the constellation, the optimization
  managers and the V8 engine itself.
- `tests/` exercises the library.

Pending evaluations are kept as a std `HashSet<u64>` of evaluation ids,
which vstd specifies; the embedder keeps the callbacks in a std `HashMap`
beside it. For `u64` ids the choice of hasher changes nothing observable,
so the evaluator states its bookkeeping over that set rather than over a
map with an outside hasher that vstd knows nothing of.
