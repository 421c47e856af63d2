//! The execution clients whose stateless validator is benchmarked.

use vstd::prelude::*;

verus! {

/// An execution client
#[derive(Debug, Clone, Copy, PartialEq, Eq, Structural)]
pub enum ExecutionClient {
    /// Reth
    Reth,
    /// Ethrex
    Ethrex,
}

/// The name of the client in lower case, as guest programs and folders write it.
pub open spec fn client_name(client: ExecutionClient) -> Seq<char> {
    match client {
        ExecutionClient::Reth => "reth"@,
        ExecutionClient::Ethrex => "ethrex"@,
    }
}

impl ExecutionClient {
    /// Returns the name of the client in lower case.
    pub fn lower_name(&self) -> (name: &'static str)
        ensures
            name@ == client_name(*self),
    {
        match self {
            ExecutionClient::Reth => "reth",
            ExecutionClient::Ethrex => "ethrex",
        }
    }
}

} // verus!
