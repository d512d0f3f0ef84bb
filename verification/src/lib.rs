pub mod chars;
pub mod scan;
pub mod buffer;
pub mod command;
pub mod motion;
pub mod executor;
pub mod strutil;
pub mod parser;
pub mod validator;
pub mod laws;
pub mod event;
pub mod lesson;
pub mod curriculum;
pub mod app;
