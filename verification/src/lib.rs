//! An NFSv4.1 server framework: the XDR and RPC encodings, the protocol's
//! data types, and the state of the server.
use vstd::prelude::*;

pub mod byte_seq;
pub mod client;
pub mod connection;
pub mod nfs;
pub mod rpc;
pub mod server;
pub mod session;
pub mod wire_layout;
pub mod wire_numbers;
pub mod xdr;

verus! {

} // verus!
