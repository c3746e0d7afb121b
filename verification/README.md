# neurontrace (verified core)

Policy logic of a BPF-LSM containment system for agent processes, written in
Verus and proved against its contracts.

* `src/` — the library. `common` holds the records shared with the kernel
  programs; `policy` the policy sets, their compilation and matching, and
  validation; `enforcement` a model of the decisions the kernel hooks take
  (policy lookup with default-deny, the generation check, the hooks'
  answers, the violation records they emit), stated and proved here but not
  run by any kernel program, since the BPF programs themselves are not part
  of this crate; `labels` process labels; `events` and
  `feedback` how the controller reads violation records and reports them;
  `config`, `cli`, `preflight` the controller's settings and host checks;
  `laws` the properties that tie these together. `glob` and `bytes` hold the
  few trusted calls (the `globset` pattern engine, UTF-8 decoding, the
  machine's byte order).
* `tests/` — tests of the library on concrete values.
* `app/` — the controller program: command line, files, the kernel maps
  through `aya`, the event loop, JSON output. It loads a BPF object built
  elsewhere (`target/bpfel-unknown-none/release/neurontrace-ebpf`); nothing
  in this crate builds it.
