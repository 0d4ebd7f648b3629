pub mod backend;
pub mod compiler;
pub mod driver;
pub mod frontend;
pub mod ir;
