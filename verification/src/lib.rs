//! Single-shot remote launcher core: classify a target executable's header,
//! derive the raw syscall routine that rebinds stdio onto a socket descriptor,
//! parse environment specifications, and build the debugger invocation that
//! injects the routine. The surrounding binary does the socket, file and
//! process work and hands this library plain values.

pub mod arch;
pub mod envspec;
pub mod errors;
pub mod launch;
pub mod template;
pub mod text;
