//! The core of a small interactive command interpreter, free of input and
//! output: lines are split into words, the first word is classified as a
//! builtin or an external program, programs are looked up on a search path
//! against a table of file facts, and each command yields the text to print
//! together with the effect the platform has to carry out.

pub mod builtins;
pub mod command;
pub mod dispatch;
pub mod files;
pub mod outcome;
pub mod parse;
pub mod resolve;
pub mod text;
