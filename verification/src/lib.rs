//! Pieces of the M3 runtime: the TileMux interface, capabilities, semaphores, receive
//! gates and the heap's initial layout, with their contracts.
pub mod cap;
pub mod errors;
pub mod heap;
pub mod kif;
pub mod rgate;
pub mod sem;
pub mod tcu;
pub mod time;
pub mod tmif;
pub mod util;
