# edge_runtime

The logic of an edge function runtime, verified with Verus: how the import map of a worker is
found and read, what is done to bring a worker up, how its run goes on and ends, and what the
module emitter and the npm resolver are put together from.

- `src/` is the verified library.
  - `text`, `urls`: text, paths, URLs and percent-encoding.
  - `import_maps`: import maps from files and data URIs, and the warning about their diagnostics.
  - `options`, `startup`, `startup_steps`, `deno_runtime`, `run`: a worker from its options to the
    end of its run.
  - `errors`: errors of scripts.
  - `emitter`: the parts of the module emitter and of the npm resolver.
  - `laws`: what holds across startup and run.
- `tests/` runs the library, with the outside crates linked.
- `app/` carries out what the library plans: files, the script engine and the wall clock.
  `app/host.rs` says what it needs of an engine, and `app/deno_engine.rs` meets that with the
  Deno crates.
