//! Station-mode Wi-Fi bring-up: settings resolution and the interface state
//! machine that sequences configuration, start, association and addressing.
pub mod networking;
pub mod options;
