mod outside;
pub mod strings;
pub mod diagnostics;
