//! The fixtures that guest programs are run on.

use vstd::prelude::*;
use vstd::string::*;

use crate::text::{concat3, decimal, decimal_text};

verus! {

/// One benchmark case of a guest program.
pub trait GuestFixture {
    /// The name of the fixture.
    fn name(&self) -> String;

    /// What the metrics record of the fixture, as JSON.
    fn metadata(&self) -> String;

    /// The bytes that the guest reads from its standard input.
    fn input(&self) -> Result<Vec<u8>, String>;

    /// The public values that the guest is expected to commit.
    fn expected_public_values(&self) -> Result<Vec<u8>, String>;
}

/// What the metrics record of a block.
#[derive(Debug, Clone, Copy, PartialEq, Eq, Structural)]
pub struct BlockMetadata {
    /// Gas that the block used.
    pub block_used_gas: u64,
}

impl BlockMetadata {
    /// The metadata as a JSON object.
    pub open spec fn json(&self) -> Seq<char> {
        "{\"block_used_gas\":"@ + decimal_text(self.block_used_gas as nat) + "}"@
    }
}

/// A fixture whose parts are at hand.
#[derive(Debug)]
pub struct GenericGuestFixture {
    /// The name of the fixture.
    pub name: String,
    /// The bytes that the guest reads from its standard input.
    pub input: Vec<u8>,
    /// The public values that the guest is expected to commit.
    pub expected_public_values: Vec<u8>,
    /// What the metrics record of the block.
    pub metadata: BlockMetadata,
}

impl GuestFixture for GenericGuestFixture {
    fn name(&self) -> (name: String)
        ensures
            name@ == self.name@,
    {
        self.name.clone()
    }

    fn metadata(&self) -> (metadata: String)
        ensures
            metadata@ == self.metadata.json(),
    {
        concat3("{\"block_used_gas\":", decimal(self.metadata.block_used_gas).as_str(), "}")
    }

    fn input(&self) -> (input: Result<Vec<u8>, String>)
        ensures
            input matches Ok(bytes) && bytes@ == self.input@,
    {
        Ok(self.input.clone())
    }

    fn expected_public_values(&self) -> (values: Result<Vec<u8>, String>)
        ensures
            values matches Ok(bytes) && bytes@ == self.expected_public_values@,
    {
        Ok(self.expected_public_values.clone())
    }
}

} // verus!
