# lazuli

The core of a GameCube emulator, written in Verus: the processor's registers, an
interpreter, a just-in-time compiler from PowerPC to WebAssembly, and the devices
around them. Everything under `src/` is verified.

| Module    | What it holds                                                            |
|-----------|--------------------------------------------------------------------------|
| `gekko`   | Registers of the processor, their image in memory, exceptions            |
| `disasm`  | Instruction words and their fields                                       |
| `ppcint`  | Interpreter over registers and main memory                               |
| `ppcir`   | Intermediate representation: decoding, translation, typing and meaning   |
| `ppcwasm` | Lowering to WebAssembly, module encoding, and what compiled code does    |
| `web`     | Emulator state: caches, loaders, saved states and memory-mapped hardware |
| `boot`    | Milestones and cycle budget of the run loop                              |
| `uniform` | Sizes of uniform buffers                                                 |

The chain from guest code to compiled code is proved in three steps:

* `ppcir::agreement` - translated code does what the interpreter does;
* `ppcir::definition` - translated code does what the architecture defines, where the
  interpreter does not go along;
* `ppcwasm::faithful` - compiled code does what the intermediate representation means,
  and so what the interpreter does.

What the arithmetic of doubles gives is a parameter of these proofs. The encoding of
WebAssembly and the table of instruction words come from `wasm-encoder` and `powerpc`;
what is assumed of them is written beside each call.

`tests/` holds the tests. `app/` is the part that talks to the browser and to the
graphics device: exports, the canvas, and the run loop of the native front end.
