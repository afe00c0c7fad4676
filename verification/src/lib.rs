//! Decisions of a Bluetooth audio bridge for PipeWire.
#![allow(unused_imports)]

pub mod a2dp;
pub mod audio;
pub mod bluetooth;
pub mod cli;
pub mod clock;
pub mod config;
pub mod controller;
pub mod document;
pub mod gain;
pub mod ipc;
pub mod json;
pub mod path;
pub mod policy;
pub mod printout;
pub mod report;
pub mod storage;
pub mod text;
