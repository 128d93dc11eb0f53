# dynisland

The verified core of a dynamic, island-shaped status bar: the timers that
drive its animations, the state machines of its animated widgets, the
arithmetic of its layouts, the registries of activities and their
properties, and the decisions of its music module.

- `src/` is the library, written in Verus; its functions carry
  contracts, and public proof functions state the laws that hold across
  calls.
- `tests/` runs the library on concrete values.
- `app/` is the program around it: configuration files, the system clock,
  and the floating-point side of animations and timing curves.
