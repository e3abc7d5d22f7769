pub mod accumulator;
pub mod config;
pub mod digits;
pub mod rules;
pub mod validator;
