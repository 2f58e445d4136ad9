//! Host-side driver core for u-blox short-range radio modules: the Extended
//! Data Mode framing, the frame digester, socket bookkeeping and the Wi-Fi
//! link state machine.
use vstd::prelude::*;

pub mod command;
pub mod digest;
pub mod edm;
pub mod error;
pub mod ring_buffer;
pub mod runner;
pub mod socket;
pub mod socket_map;
pub mod stack;
pub mod station;
pub mod wifi;

verus! {

} // verus!
