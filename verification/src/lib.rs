//! asq: the logic of a command-line tool that asks large language models
//! questions, with verified contracts.
pub mod controllers;
pub mod describe;
pub mod entities;
pub mod providers;
pub mod text;
