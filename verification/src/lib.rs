//! The front end of the Nitro compiler (stage 0): source files, packages and projects.
pub mod ast;
pub mod external;
pub mod lexer;
pub mod pkg;
pub mod project;
