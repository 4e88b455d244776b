# macro_kit

The decision-making half of a family of Rust procedural macros, written in
Verus and proved against its contracts:

- builders (`builder`, `builder_exercise`, `builder_with_attribute`,
  `build_back_better`): builder structs, setters, renames, uppercasing and
  defaults for the fields of a struct;
- visibility rewriting (`make_public`, `private`);
- `panic_to_result`: a function that panics becomes one that returns
  `Result<T, String>`;
- `yaml_config`: a struct whose fields come from a configuration file;
- `iac`: the order in which cloud resources are requested, as a state
  machine.

`src/` is the verified library. It works on a plain model of the macro
input (`model`, `tokens`) and returns the generated code as Rust source
text; the few computations it borrows from `syn` and `proc-macro2`
(reading and writing string literals) stand behind the trusted items in
`syntax`, and the YAML reading of `serde_yaml` behind one in `yaml_config`.
Errors carry the place in the input they point at (`error::Site`), which
the front end turns back into a span.

`app/` is the compiler-facing side: it parses tokens with `syn`, converts
them to the model, calls the library, reads files and talks to the cloud
services. `tests/` exercises the library on concrete inputs.
