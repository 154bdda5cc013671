//! Command-line grammar of a linter for `.env` files: the subcommands, their
//! arguments, the global flags and their defaults, as plain data
//! (`grammar`); the rules that turn what an invocation gives into resolved
//! values (`resolve`); and the translation of the grammar into a `clap`
//! command that parses real arguments (`command`).

pub mod command;
pub mod grammar;
pub mod resolve;
