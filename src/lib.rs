pub mod args;
pub mod command;
pub mod dispatch;
pub mod laws;
pub mod number;
pub mod runtime;
pub mod value;
