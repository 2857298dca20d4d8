//! Parsers for the configuration-value language of a virtual machine
//! monitor's command line.
//!
//! Raw flag strings encode small grammars: nested, composable disk backends,
//! key/value option sets, serial-port bindings, network endpoints, boot-order
//! permutations, and numeric literals with units and radices.  Each grammar
//! here turns one raw token into a strongly typed, internally consistent
//! configuration object, or into an error that names the offending substring.
//! Every parser is pure: no I/O, no ambient state.  The one environment-
//! sourced value (the auto-cache root directory) is threaded in as an
//! explicit parameter.

pub mod attach;
pub mod boot;
pub mod config;
pub mod disk;
pub mod error;
pub mod fsargs;
pub mod net;
pub mod numeric;
pub mod serial;
pub mod shim;
pub mod sockaddr;
pub mod strutil;
pub mod vtl2;
