//! Class-load interception for protected archives: locator resolution,
//! archive scanning, the decrypted-class cache and the class-load event
//! handler.
#![allow(non_camel_case_types)]

pub mod text;
pub mod resolver;
pub mod strategy;
pub mod entry;
pub mod archive;
pub mod store;
pub mod scanner;
pub mod gate;
pub mod jvmti;
pub mod check;
pub mod config;
pub mod launcher;

