# gitie

A Git front end with AI assistance: it writes commit messages, explains Git
commands and their errors, and reviews diffs with rules and a structural
(Tree-sitter) analysis of the changed code.

## Layout

- `src/` is the library, written in Verus, which verifies every function
  in it but the small trusted wrappers named below: its public functions
  state their results in contracts, and the laws that relate them stand as
  proof functions. It covers flag handling,
  diff parsing, the review rules and engine, the classification of changes,
  the Java project model, the prompts and reports, the decisions of the
  commands, and the analysis of source text with the Tree-sitter grammars
  (Rust, Java, Python, Go). The calls into std and outside crates
  (tree-sitter, regex, serde_json, colored) stand behind small trusted
  wrappers whose contracts are stated in their doc comments.
- `app/` is the program around it: argument parsing, running `git`, the HTTP
  calls to the AI service, reading configuration and source files. It hands
  the library plain values and acts on what comes back.
- `tests/` runs the library on concrete inputs.
