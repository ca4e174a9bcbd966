# rustj

The runtime core of a small Java virtual machine, written and verified in Verus.

`src/` is the library. Its contracts are stated over a mathematical model of
the machine (`runtime::vm::State`): the shared part that all threads see and the part that belongs to one
thread.

- `metadata`: class files, constant pools, descriptors and the registry of loaded classes.
- `runtime`: slots, local variables, operand stacks, frames, the heap, strings, and the type checks behind
  `checkcast` and `instanceof`.
- `runtime::vm`: class and module mirrors, exceptions and stack traces, monitors, threads, and the phases of
  the machine.
- `runtime::native`: the native methods of `java.lang`, `java.lang.invoke`, `java.io`, `jdk.internal.misc`,
  `jdk.internal.reflect`, `jdk.internal.loader` and `sun.nio.fs`.
- `testkit`: arguments, assertions and lookups for running compiled Java classes.

Nothing in the library blocks, reads a file or asks the system: a native method that has to hands out a step
(`runtime::native::step::NativeStep`) and is finished with what came of it. Proof functions named `law_…`
state what holds across functions: what a write gives back to a read, which threads a monitor keeps out, that
nothing a native method does takes objects, mirrors or strings away again.

`app/` is ordinary Rust around the library: clocks, files, dynamic libraries, and a machine that runs the
threads of one runtime over a lock.

`tests/` holds the tests of the library.
