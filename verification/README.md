# zwasm_sdk

Bindings to the zwasm WebAssembly runtime, split in two.

- `src/` is the verified library. It holds every decision the bindings take:
  how zwasm's raw trap, engine, extern and value kinds map to Rust enums; the
  errors and their text; the checks made before a call reaches the C side
  (arities, memory limits, global mutability and type, interior NUL bytes in
  WASI strings, engine selectors); export lookup; the import list; what a
  trap becomes, and how the trap hook's view of it agrees with the error's;
  and the store's ownership registry, which only ever grows. Each public function states its result in
  full, and the laws that relate them are proof functions beside them.
- `app/` makes the C calls through `zwasm-sys` and hands the library plain
  values: engines and their event hooks, stores, modules, instances,
  functions, memories, globals, values and the WASI configuration.

Modules of `src/`: `error`, `engine`, `func`, `global`, `instance`, `memory`,
`module`, `store`, `text`, `val`, `wasi`.
