//! Core of a small machine emulator: the memory map, the memory-mapped
//! peripherals (real-time clock, UART, video display processor) and the
//! decisions of the CPU run loop.
//!
//! Every device is a state machine on plain values. What comes from the host
//! (its tick counter, input bytes) is passed in as an argument, and what is
//! bound for the host (bytes for the serial sink, work for the rendering
//! backend) is handed back as a value for the caller to carry out. The one
//! thing that the library reads itself is the monotonic clock, for the
//! seconds of the real-time register.

pub mod bus;
pub mod clock;
pub mod machine;
pub mod mem;
pub mod peripheral;
pub mod uart;
pub mod vdp;
