//! The decisions of a wireless Android Auto proxy, as verified functions.
//!
//! The proxy sits between a phone and a car: it talks a short handshake over Bluetooth, hands
//! the phone the credentials of its own access point, and then carries the Android Auto
//! traffic between the phone and the head unit. This crate holds what the proxy computes and
//! decides; sockets, Bluetooth, timers and files are the business of the program around it,
//! which performs the actions that the functions here ask for and reports back what happened.

pub mod address;
pub mod ble;
pub mod bluetooth;
pub mod bridge;
pub mod config;
pub mod connect;
pub mod course;
pub mod direct;
pub mod frame;
pub mod handshake;
pub mod hex;
pub mod launch;
pub mod monitor;
pub mod outside;
pub mod peer;
pub mod profile;
pub mod session;
pub mod settings;
pub mod text;
