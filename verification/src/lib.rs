//! Find the processes bound to a TCP/UDP port and ask them to stop.
//!
//! The library holds the decision logic of the tool: parsing the port
//! argument, resolving a port to the owning process identifiers in a
//! socket table, selecting which enumerated processes to terminate, and
//! mapping each outcome to a process exit code. The surrounding binary
//! performs the probing, enumeration and signalling.

pub mod cli;
pub mod port;
pub mod socket;
pub mod terminator;
