//! Host-plugin adapter for Illustrator-style plug-in hosts: message dispatch,
//! plug-in instance lifecycle, error reporting policy and PiPL descriptors.
#![allow(non_snake_case)]

pub mod codes;
pub mod cstr;
pub mod dispatch;
pub mod suites;
pub mod error_policy;
pub mod plugin;
pub mod entry;
pub mod pipl;
pub mod laws;
