//! Removes line (`//`) and block (`/*...*/`) comments from source text while
//! leaving the contents of quoted literals, whitespace formatting, and
//! non-ASCII text untouched.
//!
//! The crate offers two scanners, both of which remove a line entirely when a
//! comment was its only content. [`strip_comments`] is the full one: it also
//! recognizes raw (`r#"..."#`) literals. [`process`] is a plainer variant
//! that knows only plain quoted literals. Both are total:
//! an unterminated comment or literal runs to the end of the input, and no
//! input is an error.

pub mod basic;
pub mod laws;
pub mod scanner;
pub mod text;

pub use basic::process;
pub use scanner::strip_comments;
