# spark_model (verified excerpt)

Two small decision procedures of the model runtime, written in Verus:

- `src/attn_width.rs` maps a DFlash drafter's `head_dim` to the compiled
  paged-indirect attention kernel and guards a kernel against a drafter of a
  different width.
- `src/snap_agree.rs` is the rank-agreed, all-or-nothing restore decision for
  Marconi checkpoints: local proposal, agreement, skip point.
- `src/decimal.rs` renders integers in decimal for error messages.

Run the tests under `tests/` for concrete scenarios; the laws (order-independent
agreement, all-or-nothing restore, identical skip point on every rank, selector
and guard agreeing) are proof functions in the modules above.
