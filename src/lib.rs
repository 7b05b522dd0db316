//! A terminal to-do list: named groups of tasks, a small command language
//! that edits them, and the rules that apply a command to the list.

pub mod task;
pub mod command;
pub mod text;
pub mod parser;
pub mod todolist;
pub mod cli;
pub mod hints;
pub mod laws;
pub mod session;
