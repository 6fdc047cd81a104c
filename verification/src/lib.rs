#![allow(unused_imports)]

//! A time-lookup service core: what the time will be four hours from now in
//! Melbourne, shaped either as a structured envelope or as a program for a
//! one-cell tape machine that prints it.

pub mod args;
pub mod clock;
pub mod consumer;
pub mod dispatch;
pub mod encoder;
pub mod machine;
pub mod random;
pub mod resolver;
pub mod text;
