# Rizonet

A desktop-app framework: a native window with a webview for the frontend, a Rust
backend behind it, and a runtime that is either the WebView of the operating system
or a pinned one that is downloaded, verified and cached on first launch.

The framework's logic is a Verus library under `src/`. The contract of a function
states what it returns or changes, and Verus proves it. What the library as a whole
promises is stated in public proof functions named `law_...`, next to the functions
that they speak of.

- `src/` is the library. `src/lib.rs` lists its modules.
- `app/` is ordinary Rust around it: the `rizonet` command line, files, network,
  dialogs, the window and the event loop.
- `tests/` runs the library.

What is not proved is stated in one place each. A function marked
`#[verifier::external_body]` does one thing with another crate, and its contract and
comment say what is relied upon, and what is left open: JSON (`src/json.rs`), versions
(`src/version.rs`), SHA-256 and hexadecimal notation (`src/checksum.rs`), HTTP methods
(`src/api/builtins.rs`), images and icon files (`src/iconify.rs`), and a few functions
of the standard library.
