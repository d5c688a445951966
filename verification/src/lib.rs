use vstd::prelude::*;

pub mod asso;
pub mod dataset;
pub mod dimse;
pub mod error;
pub mod fsm;
pub mod pdu;
pub mod reader;
pub mod reassembly;
pub mod wire;
pub mod writer;

verus! {

/// The recommended port number, which requires admin access.
pub const DEFAULT_PORT_PRIMARY: u16 = 104;

/// The port number to use without admin access.
pub const DEFAULT_PORT_SECONDARY: u16 = 11112;

} // verus!
