# wrf_dynamics

Support for numerical kernels of WRF's Advanced Research WRF (ARW) dynamical
core, written in Verus.

The library (`src/`) holds the decisions of these kernels, each with a
contract proved by Verus; the floating-point arithmetic itself comes in as
closures from the caller:

- validated regions for column-mass staggering, Held-Suarez damping, full
  inverse density and dry-tendency assembly, whose constructors succeed
  exactly when every range check passes and report the first failing check;
- the field-shape checks that every kernel completes before it writes;
- for every active output point, the memory offsets it is computed from,
  proved to lie inside field storage;
- generic sweeps (`sweep`) that write a caller-supplied value at every point
  of an active box and are proved to leave every other point, halos
  included, unchanged; each kernel family builds on them;
- which terms each kernel applies, such as the saved tendencies that
  dry-tendency assembly adds on the first Runge–Kutta substep only;
- the text of every diagnostic, stated character by character.

Fields are stored in WRF's `(i, k, j)` memory order: west-east varies
fastest, then bottom-top, then south-north.

`app/` is a small CPU backend on top of the library. It owns `f32` storage
and supplies the floating-point operations (including the vectorised
Held-Suarez line update, built on `pulp`) as closures to the verified sweeps.

`tests/` exercises the library on concrete values.
