pub mod args;
pub mod check;
pub mod content;
pub mod msg;
pub mod outcome;
