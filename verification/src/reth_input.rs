//! The input of the external zisk-eth-client guest, byte for byte.
//!
//! The guest reads a single record: the tuple of its public input (block, chain
//! configuration, public keys of the transaction signers) and its witness, in
//! the standard `bincode` encoding. It commits the hash of the validated block.
//! A tuple and a structure are encoded as their fields one after the other, so
//! the record is put together from the encodings of its parts.

use vstd::prelude::*;
use vstd::string::*;

use crate::output::{law_normalization_confuses_only_trailing_zeros, normalized};
use crate::text::{concat2, concat3, decimal, decimal_text};
use crate::zkvm::zkVMKind;

verus! {

/// The number of bytes of an uncompressed secp256k1 public key.
pub const PUBLIC_KEY_LEN: usize = 65;

/// What a transaction's signer signed, and the signature.
#[derive(Debug)]
pub struct SignedTransaction {
    /// The signature's `r`, big-endian
    pub r: [u8; 32],
    /// The signature's `s`, big-endian
    pub s: [u8; 32],
    /// Whether the signature's point has an odd `y`
    pub odd_y_parity: bool,
    /// The encoded transaction that was signed
    pub signing_payload: Vec<u8>,
}

/// 65-byte uncompressed secp256k1 public key.
#[derive(Debug)]
pub struct UncompressedPublicKey {
    /// Its bytes
    pub bytes: Vec<u8>,
}

impl View for UncompressedPublicKey {
    type V = Seq<u8>;

    open spec fn view(&self) -> Seq<u8> {
        self.bytes@
    }
}

/// What the execution of a block reads of the state before it.
#[derive(Debug)]
pub struct Witness {
    /// Preimages of the trie nodes
    pub state: Vec<Vec<u8>>,
    /// Contract codes
    pub codes: Vec<Vec<u8>>,
    /// Preimages of the account and storage keys
    pub keys: Vec<Vec<u8>>,
    /// RLP-encoded headers of earlier blocks
    pub headers: Vec<Vec<u8>>,
}

/// A benchmark fixture as it was read.
#[derive(Debug)]
pub struct RawFixture {
    /// The name of the fixture
    pub name: String,
    /// The RLP encoding of the block's header
    pub header_rlp: Vec<u8>,
    /// Gas used by the block
    pub gas_used: u64,
    /// The block's transactions
    pub transactions: Vec<SignedTransaction>,
    /// The encoded block, or why it could not be encoded
    pub block: Result<Vec<u8>, String>,
    /// The chain configuration, as JSON of its `bincode` compatible form
    pub chain_config: String,
    /// The execution witness
    pub witness: Witness,
}

/// Result of converting a benchmark fixture into guest input.
#[derive(Debug)]
pub struct ConvertedFixture {
    /// Fixture name.
    pub name: String,
    /// Gas used by the block, recorded in the metrics metadata.
    pub gas_used: u64,
    /// Guest stdin.
    pub stdin: Vec<u8>,
    /// Expected committed output, the block hash encoded as the guest commits it.
    pub expected: Vec<u8>,
}

/// Why the signers of the transactions could not be recovered.
#[derive(Debug)]
pub enum SignerError {
    /// A signature gives no public key.
    Recover {
        /// The place of the transaction
        index: usize,
        /// The cause
        error: String,
    },
    /// A public key has not the length of an uncompressed one.
    Encode {
        /// The place of the transaction
        index: usize,
        /// The length that it has
        len: usize,
    },
}

impl SignerError {
    /// The text of the failure.
    pub open spec fn text(&self) -> Seq<char> {
        match self {
            SignerError::Recover { index, .. } => "failed to recover signature for tx #"@
                + decimal_text(*index as nat),
            SignerError::Encode { index, .. } => "failed to encode public key for tx #"@
                + decimal_text(*index as nat) + ": could not convert slice to array"@,
        }
    }

    /// The text of the failure.
    pub fn message(&self) -> (message: String)
        ensures
            message@ == self.text(),
    {
        match self {
            SignerError::Recover { index, .. } => concat2(
                "failed to recover signature for tx #",
                decimal(*index as u64).as_str(),
            ),
            SignerError::Encode { index, .. } => concat3(
                "failed to encode public key for tx #",
                decimal(*index as u64).as_str(),
                ": could not convert slice to array",
            ),
        }
    }
}

/// Why a fixture could not be converted.
#[derive(Debug)]
pub enum ConvertError {
    /// The fixture could not be parsed.
    Parse(String),
    /// The signers of its transactions could not be recovered.
    Signers(SignerError),
    /// The hash of its block could not be encoded.
    EncodeHash(String),
    /// The input of the guest could not be encoded.
    EncodeInput(String),
}

impl ConvertError {
    /// The text of the failure.
    pub open spec fn text(&self) -> Seq<char> {
        match self {
            ConvertError::Parse(_) => "Failed to parse stateless validation fixture"@,
            ConvertError::Signers(_) => "Failed to recover transaction signer public keys"@,
            ConvertError::EncodeHash(_) => "Failed to encode expected block hash"@,
            ConvertError::EncodeInput(_) =>
                "Failed to serialize (RethInputPublic, RethInputWitness)"@,
        }
    }

    /// The text of the failure.
    pub fn message(&self) -> (message: String)
        ensures
            message@ == self.text(),
    {
        match self {
            ConvertError::Parse(_) => "Failed to parse stateless validation fixture".to_owned(),
            ConvertError::Signers(_) =>
                "Failed to recover transaction signer public keys".to_owned(),
            ConvertError::EncodeHash(_) => "Failed to encode expected block hash".to_owned(),
            ConvertError::EncodeInput(_) =>
                "Failed to serialize (RethInputPublic, RethInputWitness)".to_owned(),
        }
    }
}

/// The Keccak-256 digest of `bytes`.
pub uninterp spec fn keccak256_digest(bytes: Seq<u8>) -> Seq<u8>;

/// Calls `alloy_primitives::keccak256`. The digest is claimed to be the same for
/// the same bytes; that it has 32 bytes the type says.
#[verifier::external_body]
fn keccak256(bytes: &[u8]) -> (digest: [u8; 32])
    ensures
        digest@ == keccak256_digest(bytes@),
{
    alloy_primitives::keccak256(bytes).0
}

/// Whether `key` has the form of an uncompressed public key: 65 bytes, of which
/// the first is the tag 4.
pub open spec fn is_uncompressed(key: Seq<u8>) -> bool {
    key.len() == PUBLIC_KEY_LEN && key[0] == 4
}

/// The uncompressed public key that a signature over `hash` recovers to, or the
/// text of the failure.
pub uninterp spec fn recovered_key(
    r: Seq<u8>,
    s: Seq<u8>,
    odd_y_parity: bool,
    hash: Seq<u8>,
) -> Result<Seq<u8>, Seq<char>>;

/// Calls `Signature::recover_from_prehash` of `alloy_primitives` on the
/// signature of the given scalars and parity, and encodes the key without
/// compression. The outcome is claimed to be the same for the same signature and
/// hash. A key that is no point at infinity, as a recovered one is not, is
/// encoded in 65 bytes behind the tag 4.
#[verifier::external_body]
fn recover_from_prehash(r: &[u8; 32], s: &[u8; 32], odd_y_parity: bool, hash: &[u8; 32]) -> (key:
    Result<Vec<u8>, String>)
    ensures
        match key {
            Ok(key) => recovered_key(r@, s@, odd_y_parity, hash@) == Ok::<Seq<u8>, Seq<char>>(key@)
                && is_uncompressed(key@),
            Err(error) => recovered_key(r@, s@, odd_y_parity, hash@) == Err::<Seq<u8>, Seq<char>>(
                error@,
            ),
        },
{
    let signature = alloy_primitives::Signature::from_scalars_and_parity(
        alloy_primitives::B256::from(*r),
        alloy_primitives::B256::from(*s),
        odd_y_parity,
    );
    match signature.recover_from_prehash(&alloy_primitives::B256::from(*hash)) {
        Ok(key) => Ok(key.to_encoded_point(false).as_bytes().to_vec()),
        Err(error) => Err(error.to_string()),
    }
}

/// The public key of a transaction's signer, as far as the signature gives one.
pub open spec fn signer_key(tx: SignedTransaction) -> Result<Seq<u8>, Seq<char>> {
    recovered_key(tx.r@, tx.s@, tx.odd_y_parity, keccak256_digest(tx.signing_payload@))
}

/// Whether a transaction's signature gives a public key.
pub open spec fn has_signer(tx: SignedTransaction) -> bool {
    signer_key(tx) is Ok
}

/// What becomes of the transaction at `index` where `recovered` is what its
/// signature gives.
pub open spec fn signer_outcome(
    index: usize,
    recovered: Result<Seq<u8>, Seq<char>>,
    outcome: Result<UncompressedPublicKey, SignerError>,
) -> bool {
    match recovered {
        Ok(key) => if key.len() == PUBLIC_KEY_LEN {
            outcome matches Ok(signer) && signer@ == key
        } else {
            outcome matches Err(SignerError::Encode { index: at, len }) && at == index && len
                == key.len()
        },
        Err(cause) => outcome matches Err(SignerError::Recover { index: at, error }) && at == index
            && error@ == cause,
    }
}

/// Takes a recovered key for the uncompressed public key of the transaction at
/// `index`.
pub fn accept_key(index: usize, recovered: Result<Vec<u8>, String>) -> (outcome: Result<
    UncompressedPublicKey,
    SignerError,
>)
    ensures
        signer_outcome(
            index,
            match recovered {
                Ok(key) => Ok(key@),
                Err(error) => Err(error@),
            },
            outcome,
        ),
{
    match recovered {
        Ok(bytes) => if bytes.len() == PUBLIC_KEY_LEN {
            Ok(UncompressedPublicKey { bytes })
        } else {
            Err(SignerError::Encode { index, len: bytes.len() })
        },
        Err(error) => Err(SignerError::Recover { index, error }),
    }
}

/// Recovers the uncompressed public key of the signer of the transaction at
/// `index`.
pub fn recover_signer(index: usize, tx: &SignedTransaction) -> (outcome: Result<
    UncompressedPublicKey,
    SignerError,
>)
    ensures
        match signer_key(*tx) {
            Ok(key) => outcome matches Ok(signer) && signer@ == key && is_uncompressed(key),
            Err(cause) => outcome matches Err(SignerError::Recover { index: at, error }) && at
                == index && error@ == cause,
        },
{
    let hash = keccak256(tx.signing_payload.as_slice());
    accept_key(index, recover_from_prehash(&tx.r, &tx.s, tx.odd_y_parity, &hash))
}

/// Whether every transaction's signature gives a public key.
pub open spec fn all_signed(txs: Seq<SignedTransaction>) -> bool {
    forall|i: int| 0 <= i < txs.len() ==> has_signer(#[trigger] txs[i])
}

/// The public keys of the signers, one for each transaction and in the same
/// order.
pub open spec fn signer_keys(txs: Seq<SignedTransaction>) -> Seq<Seq<u8>> {
    txs.map_values(|tx: SignedTransaction| signer_key(tx)->Ok_0)
}

/// The bytes of the public keys.
pub open spec fn key_bytes(keys: Seq<UncompressedPublicKey>) -> Seq<Seq<u8>> {
    keys.map_values(|key: UncompressedPublicKey| key@)
}

/// Whether all keys have the form of an uncompressed public key.
pub open spec fn all_uncompressed(keys: Seq<Seq<u8>>) -> bool {
    forall|i: int| 0 <= i < keys.len() ==> is_uncompressed(#[trigger] keys[i])
}

/// Whether `error` is that of the first transaction without a signer.
pub open spec fn first_without_signer(txs: Seq<SignedTransaction>, error: SignerError) -> bool {
    error matches SignerError::Recover { index, error: cause } && index < txs.len() && signer_key(
        txs[index as int],
    ) == Err::<Seq<u8>, Seq<char>>(cause@) && forall|i: int|
        0 <= i < index ==> has_signer(#[trigger] txs[i])
}

/// Recovers the uncompressed signer public key for each transaction. It fails
/// with the first transaction that has none.
pub fn recover_signers(txs: &Vec<SignedTransaction>) -> (signers: Result<
    Vec<UncompressedPublicKey>,
    SignerError,
>)
    ensures
        match signers {
            Ok(keys) => all_signed(txs@) && key_bytes(keys@) == signer_keys(txs@)
                && all_uncompressed(signer_keys(txs@)),
            Err(error) => first_without_signer(txs@, error),
        },
{
    let mut keys: Vec<UncompressedPublicKey> = Vec::new();
    let mut i: usize = 0;
    while i < txs.len()
        invariant
            i <= txs@.len(),
            keys@.len() == i,
            forall|j: int|
                0 <= j < i ==> has_signer(#[trigger] txs@[j]) && signer_key(txs@[j]) == Ok::<
                    Seq<u8>,
                    Seq<char>,
                >(keys@[j]@) && is_uncompressed(keys@[j]@),
        decreases txs@.len() - i,
    {
        match recover_signer(i, &txs[i]) {
            Ok(key) => {
                keys.push(key);
            },
            Err(error) => {
                return Err(error);
            },
        }
        i = i + 1;
    }
    assert(key_bytes(keys@) =~= signer_keys(txs@));
    assert forall|j: int| 0 <= j < signer_keys(txs@).len() implies is_uncompressed(
        #[trigger] signer_keys(txs@)[j],
    ) by {
        assert(has_signer(txs@[j]));
    }
    Ok(keys)
}

/// The `len` lowest bytes of `value`, the lowest first.
pub open spec fn le_bytes(value: nat, len: nat) -> Seq<u8>
    decreases len,
{
    if len == 0 {
        Seq::empty()
    } else {
        seq![(value % 256) as u8] + le_bytes(value / 256, (len - 1) as nat)
    }
}

/// A length in the variable-width encoding of `bincode`: one byte up to 250, and
/// otherwise a marker and two, four or eight bytes.
pub open spec fn encoded_len(len: nat) -> Seq<u8> {
    if len <= 250 {
        seq![len as u8]
    } else if len <= 0xffff {
        seq![251u8] + le_bytes(len, 2)
    } else if len <= 0xffff_ffff {
        seq![252u8] + le_bytes(len, 4)
    } else {
        seq![253u8] + le_bytes(len, 8)
    }
}

/// A byte string with its length before it.
pub open spec fn framed(bytes: Seq<u8>) -> Seq<u8> {
    encoded_len(bytes.len()) + bytes
}

/// Byte strings, each with its length before it, one after the other.
pub open spec fn all_framed(items: Seq<Seq<u8>>) -> Seq<u8>
    decreases items.len(),
{
    if items.len() == 0 {
        Seq::empty()
    } else {
        framed(items[0]) + all_framed(items.skip(1))
    }
}

/// A list of byte strings: their number, then each with its length before it.
pub open spec fn encoded_list(items: Seq<Seq<u8>>) -> Seq<u8> {
    encoded_len(items.len()) + all_framed(items)
}

/// Calls `bincode::serde::encode_to_vec` on the hash as a `B256`, in the standard
/// configuration. `B256` is encoded as a byte string: its length, then its
/// bytes. Writing to a vector does not fail.
#[verifier::external_body]
fn encode_block_hash(hash: &[u8; 32]) -> (encoded: Result<Vec<u8>, String>)
    ensures
        encoded is Ok,
        encoded->Ok_0@ == framed(hash@),
{
    bincode::serde::encode_to_vec(
        alloy_primitives::B256::from(*hash),
        bincode::config::standard(),
    ).map_err(|error| error.to_string())
}

/// Calls `bincode::serde::encode_to_vec` on the list of the keys' bytes, in the
/// standard configuration: the number of keys, then the length and the bytes of
/// each. Writing to a vector does not fail.
#[verifier::external_body]
fn encode_public_keys(keys: &Vec<UncompressedPublicKey>) -> (encoded: Result<Vec<u8>, String>)
    ensures
        encoded is Ok,
        encoded->Ok_0@ == encoded_list(key_bytes(keys@)),
{
    let list: Vec<&Vec<u8>> = keys.iter().map(|key| &key.bytes).collect();
    bincode::serde::encode_to_vec(list, bincode::config::standard()).map_err(
        |error| error.to_string(),
    )
}

/// The byte strings.
pub open spec fn byte_strings(items: Seq<Vec<u8>>) -> Seq<Seq<u8>> {
    items.map_values(|item: Vec<u8>| item@)
}

/// An encoded witness: its four lists, one after the other.
pub open spec fn encoded_witness(witness: Witness) -> Seq<u8> {
    encoded_list(byte_strings(witness.state@)) + encoded_list(byte_strings(witness.codes@))
        + encoded_list(byte_strings(witness.keys@)) + encoded_list(byte_strings(witness.headers@))
}

/// Calls `bincode::serde::encode_to_vec` on the witness as an `ExecutionWitness`
/// of `alloy_rpc_types_debug`, in the standard configuration: its four lists one
/// after the other, each the number of its items, then the length and the bytes
/// of each. Writing to a vector does not fail.
#[verifier::external_body]
fn encode_witness(witness: &Witness) -> (encoded: Result<Vec<u8>, String>)
    ensures
        encoded is Ok,
        encoded->Ok_0@ == encoded_witness(*witness),
{
    let list = |items: &Vec<Vec<u8>>| items.iter().map(|item| item.clone().into()).collect();
    let witness = alloy_rpc_types_debug::ExecutionWitness {
        state: list(&witness.state),
        codes: list(&witness.codes),
        keys: list(&witness.keys),
        headers: list(&witness.headers),
    };
    bincode::serde::encode_to_vec(witness, bincode::config::standard()).map_err(
        |error| error.to_string(),
    )
}

/// The `bincode` encoding of the chain configuration that `json` writes, or the
/// text of the failure to read or to encode it.
pub uninterp spec fn chain_config_encoding(json: Seq<char>) -> Result<Seq<u8>, Seq<char>>;

/// Calls `bincode::serde::encode_to_vec`, in the standard configuration, on the
/// `serde_bincode_compat::ChainConfig` of `alloy_genesis` that
/// `serde_json::from_str` reads from `json`. The encoding, or the error's text,
/// is claimed to be the same for the same text.
#[verifier::external_body]
fn encode_chain_config(json: &str) -> (encoded: Result<Vec<u8>, String>)
    ensures
        match encoded {
            Ok(bytes) => chain_config_encoding(json@) == Ok::<Seq<u8>, Seq<char>>(bytes@),
            Err(error) => chain_config_encoding(json@) == Err::<Seq<u8>, Seq<char>>(error@),
        },
{
    match serde_json::from_str::<alloy_genesis::serde_bincode_compat::ChainConfig<'_>>(json) {
        Ok(config) => bincode::serde::encode_to_vec(config, bincode::config::standard()).map_err(
            |error| error.to_string(),
        ),
        Err(error) => Err(error.to_string()),
    }
}

/// The record that the guest reads: the encoded block and chain configuration,
/// the signers' keys, the witness.
pub open spec fn guest_input(
    block: Seq<u8>,
    chain_config: Seq<u8>,
    keys: Seq<Seq<u8>>,
    witness: Witness,
) -> Seq<u8> {
    block + chain_config + encoded_list(keys) + encoded_witness(witness)
}

/// The output that the guest is expected to commit for the block of this hash.
pub fn expected_output(block_hash: &[u8; 32]) -> (expected: Result<Vec<u8>, String>)
    ensures
        expected is Ok,
        expected->Ok_0@ == framed(block_hash@),
{
    encode_block_hash(block_hash)
}

/// Puts the record that the guest reads together from the encoded block and chain
/// configuration, the signers' keys and the witness.
pub fn guest_stdin(
    block: &Vec<u8>,
    chain_config: &Vec<u8>,
    keys: &Vec<UncompressedPublicKey>,
    witness: &Witness,
) -> (stdin: Result<Vec<u8>, String>)
    ensures
        stdin is Ok,
        stdin->Ok_0@ == guest_input(block@, chain_config@, key_bytes(keys@), *witness),
{
    let mut list = match encode_public_keys(keys) {
        Ok(list) => list,
        Err(error) => return Err(error),
    };
    let mut tail = match encode_witness(witness) {
        Ok(tail) => tail,
        Err(error) => return Err(error),
    };
    let mut stdin: Vec<u8> = Vec::new();
    stdin.extend_from_slice(block.as_slice());
    stdin.extend_from_slice(chain_config.as_slice());
    stdin.append(&mut list);
    stdin.append(&mut tail);
    assert(stdin@ =~= guest_input(block@, chain_config@, key_bytes(keys@), *witness));
    Ok(stdin)
}

/// Puts a converted fixture together: the guest stdin from the encoded block and
/// chain configuration, the signers' keys and the witness, the expected output
/// from the block hash. A failure to recover the signers comes first, then one to
/// encode the block, then one to encode the chain configuration.
pub fn assemble_fixture(
    name: String,
    gas_used: u64,
    block_hash: &[u8; 32],
    signers: Result<Vec<UncompressedPublicKey>, SignerError>,
    block: Result<Vec<u8>, String>,
    chain_config: Result<Vec<u8>, String>,
    witness: &Witness,
) -> (converted: Result<ConvertedFixture, ConvertError>)
    ensures
        match (signers, block, chain_config) {
            (Err(error), _, _) => converted == Err::<ConvertedFixture, ConvertError>(
                ConvertError::Signers(error),
            ),
            (Ok(_), Err(error), _) => converted == Err::<ConvertedFixture, ConvertError>(
                ConvertError::EncodeInput(error),
            ),
            (Ok(_), Ok(_), Err(error)) => converted == Err::<ConvertedFixture, ConvertError>(
                ConvertError::EncodeInput(error),
            ),
            (Ok(keys), Ok(block), Ok(chain_config)) => converted matches Ok(fixture)
                && fixture.name == name && fixture.gas_used == gas_used && fixture.expected@
                == framed(block_hash@) && fixture.stdin@ == guest_input(
                block@,
                chain_config@,
                key_bytes(keys@),
                *witness,
            ),
        },
{
    let keys = match signers {
        Ok(keys) => keys,
        Err(error) => return Err(ConvertError::Signers(error)),
    };
    let expected = match expected_output(block_hash) {
        Ok(expected) => expected,
        Err(error) => return Err(ConvertError::EncodeHash(error)),
    };
    let block = match block {
        Ok(block) => block,
        Err(error) => return Err(ConvertError::EncodeInput(error)),
    };
    let chain_config = match chain_config {
        Ok(chain_config) => chain_config,
        Err(error) => return Err(ConvertError::EncodeInput(error)),
    };
    match guest_stdin(&block, &chain_config, &keys, witness) {
        Ok(stdin) => Ok(ConvertedFixture { name, gas_used, stdin, expected }),
        Err(error) => Err(ConvertError::EncodeInput(error)),
    }
}

/// Whether `fixture` is what `raw` converts to: the expected output is the hash
/// of its header, the keys are those of its signers.
pub open spec fn converts_to(raw: RawFixture, fixture: ConvertedFixture) -> bool {
    let block_hash = keccak256_digest(raw.header_rlp@);
    &&& fixture.name == raw.name
    &&& fixture.gas_used == raw.gas_used
    &&& block_hash.len() == 32
    &&& fixture.expected@ == framed(block_hash)
    &&& all_signed(raw.transactions@)
    &&& all_uncompressed(signer_keys(raw.transactions@))
    &&& raw.block matches Ok(block) && chain_config_encoding(raw.chain_config@) matches Ok(
        chain_config,
    ) && fixture.stdin@ == guest_input(
        block@,
        chain_config,
        signer_keys(raw.transactions@),
        raw.witness,
    )
}

/// Whether `error` is why `raw` cannot be converted: the signers come first, then
/// the block, then the chain configuration.
pub open spec fn refuses(raw: RawFixture, error: ConvertError) -> bool {
    if !all_signed(raw.transactions@) {
        error matches ConvertError::Signers(cause) && first_without_signer(
            raw.transactions@,
            cause,
        )
    } else {
        match (raw.block, chain_config_encoding(raw.chain_config@)) {
            (Err(cause), _) => error == ConvertError::EncodeInput(cause),
            (Ok(_), Err(text)) => error matches ConvertError::EncodeInput(cause) && cause@ == text,
            (Ok(_), Ok(_)) => false,
        }
    }
}

/// Converts a benchmark fixture that was read from JSON into the guest stdin and
/// the expected output.
///
/// The expected output is the block hash encoded exactly as the guest commits
/// it.
pub fn convert_fixture_json(parsed: Result<RawFixture, String>) -> (converted: Result<
    ConvertedFixture,
    ConvertError,
>)
    ensures
        match (parsed, converted) {
            (Err(error), _) => converted == Err::<ConvertedFixture, ConvertError>(
                ConvertError::Parse(error),
            ),
            (Ok(raw), Ok(fixture)) => converts_to(raw, fixture),
            (Ok(raw), Err(error)) => refuses(raw, error),
        },
{
    match parsed {
        Ok(raw) => {
            let signers = recover_signers(&raw.transactions);
            let block_hash = keccak256(raw.header_rlp.as_slice());
            let chain_config = encode_chain_config(raw.chain_config.as_str());
            assemble_fixture(
                raw.name,
                raw.gas_used,
                &block_hash,
                signers,
                raw.block,
                chain_config,
                &raw.witness,
            )
        },
        Err(error) => Err(ConvertError::Parse(error)),
    }
}

/// The number that `bytes` write, the lowest byte first.
pub open spec fn le_value(bytes: Seq<u8>) -> nat
    decreases bytes.len(),
{
    if bytes.len() == 0 {
        0
    } else {
        bytes[0] as nat + 256 * le_value(bytes.skip(1))
    }
}

/// A length and the bytes behind it, as the guest reads them.
pub open spec fn read_len(bytes: Seq<u8>) -> Option<(nat, Seq<u8>)> {
    if bytes.len() == 0 || bytes[0] > 253 {
        None
    } else if bytes[0] <= 250 {
        Some((bytes[0] as nat, bytes.skip(1)))
    } else {
        let width: int = if bytes[0] == 251 {
            2
        } else if bytes[0] == 252 {
            4
        } else {
            8
        };
        if bytes.len() <= width {
            None
        } else {
            Some((le_value(bytes.subrange(1, 1 + width)), bytes.skip(1 + width)))
        }
    }
}

/// A byte string and the bytes behind it, as the guest reads them.
pub open spec fn read_framed(bytes: Seq<u8>) -> Option<(Seq<u8>, Seq<u8>)> {
    match read_len(bytes) {
        Some((len, rest)) => if len <= rest.len() {
            Some((rest.take(len as int), rest.skip(len as int)))
        } else {
            None
        },
        None => None,
    }
}

/// `count` byte strings and the bytes behind them, as the guest reads them.
pub open spec fn read_items(bytes: Seq<u8>, count: nat) -> Option<(Seq<Seq<u8>>, Seq<u8>)>
    decreases count,
{
    if count == 0 {
        Some((Seq::empty(), bytes))
    } else {
        match read_framed(bytes) {
            Some((item, rest)) => match read_items(rest, (count - 1) as nat) {
                Some((items, end)) => Some((seq![item] + items, end)),
                None => None,
            },
            None => None,
        }
    }
}

/// A list of byte strings and the bytes behind it, as the guest reads them.
pub open spec fn read_list(bytes: Seq<u8>) -> Option<(Seq<Seq<u8>>, Seq<u8>)> {
    match read_len(bytes) {
        Some((count, rest)) => read_items(rest, count),
        None => None,
    }
}

proof fn lemma_le_bytes(value: nat, len: nat)
    ensures
        le_bytes(value, len).len() == len,
    decreases len,
{
    if len > 0 {
        lemma_le_bytes(value / 256, (len - 1) as nat);
    }
}

/// Two, four or eight bytes hold the numbers that fit in them.
proof fn lemma_le_round_trip(value: nat, len: nat, bound: nat)
    requires
        value < bound,
        bound == vstd::arithmetic::power::pow(256, len),
    ensures
        le_value(le_bytes(value, len)) == value,
    decreases len,
{
    vstd::arithmetic::power::lemma_pow0(256);
    if len > 0 {
        lemma_le_bytes(value, len);
        vstd::arithmetic::power::lemma_pow_positive(256, (len - 1) as nat);
        assert(bound == 256 * vstd::arithmetic::power::pow(256, (len - 1) as nat)) by {
            reveal(vstd::arithmetic::power::pow);
        }
        let smaller = vstd::arithmetic::power::pow(256, (len - 1) as nat) as nat;
        assert(value / 256 < smaller) by (nonlinear_arith)
            requires
                value < 256 * smaller,
        ;
        lemma_le_round_trip(value / 256, (len - 1) as nat, smaller);
        assert(le_bytes(value, len).skip(1) =~= le_bytes(value / 256, (len - 1) as nat));
    }
}

/// A length is read back, and what stands behind it is left.
proof fn lemma_len_reads_back(len: nat, rest: Seq<u8>)
    requires
        len <= u64::MAX,
    ensures
        read_len(encoded_len(len) + rest) == Some((len, rest)),
{
    let bytes = encoded_len(len) + rest;
    if len <= 250 {
        assert(bytes.skip(1) =~= rest);
    } else {
        let width: nat = if len <= 0xffff {
            2
        } else if len <= 0xffff_ffff {
            4
        } else {
            8
        };
        assert(vstd::arithmetic::power::pow(256, 2) == 0x1_0000) by {
            reveal_with_fuel(vstd::arithmetic::power::pow, 3);
        }
        assert(vstd::arithmetic::power::pow(256, 4) == 0x1_0000_0000) by {
            reveal_with_fuel(vstd::arithmetic::power::pow, 5);
        }
        assert(vstd::arithmetic::power::pow(256, 8) == 0x1_0000_0000_0000_0000) by {
            reveal_with_fuel(vstd::arithmetic::power::pow, 9);
        }
        lemma_le_bytes(len, width);
        lemma_le_round_trip(len, width, vstd::arithmetic::power::pow(256, width) as nat);
        assert(bytes.subrange(1, 1 + width as int) =~= le_bytes(len, width));
        assert(bytes.skip(1 + width as int) =~= rest);
    }
}

/// Whether the length of every item can be encoded.
pub open spec fn encodable(items: Seq<Seq<u8>>) -> bool {
    items.len() <= u64::MAX && forall|i: int|
        0 <= i < items.len() ==> (#[trigger] items[i]).len() <= u64::MAX
}

proof fn lemma_items_read_back(items: Seq<Seq<u8>>, rest: Seq<u8>)
    requires
        encodable(items),
    ensures
        read_items(all_framed(items) + rest, items.len()) == Some((items, rest)),
    decreases items.len(),
{
    if items.len() == 0 {
        assert(all_framed(items) + rest =~= rest);
        assert(items =~= Seq::empty());
    } else {
        let first = items[0];
        let others = items.skip(1);
        let behind = all_framed(others) + rest;
        assert(encodable(others)) by {
            assert forall|i: int| 0 <= i < others.len() implies (#[trigger] others[i]).len()
                <= u64::MAX by {
                assert(others[i] == items[i + 1]);
            }
        }
        lemma_items_read_back(others, rest);
        lemma_len_reads_back(first.len(), first + behind);
        assert(all_framed(items) + rest =~= encoded_len(first.len()) + (first + behind));
        assert((first + behind).take(first.len() as int) =~= first);
        assert((first + behind).skip(first.len() as int) =~= behind);
        assert(seq![first] + others =~= items);
    }
}

/// The guest reads back the very byte strings of a list, and is left with what
/// stands behind them.
pub proof fn law_list_reads_back(items: Seq<Seq<u8>>, rest: Seq<u8>)
    requires
        encodable(items),
    ensures
        read_list(encoded_list(items) + rest) == Some((items, rest)),
{
    lemma_items_read_back(items, rest);
    lemma_len_reads_back(items.len(), all_framed(items) + rest);
    assert(encoded_list(items) + rest =~= encoded_len(items.len()) + (all_framed(items) + rest));
}

/// The four lists of a witness.
pub open spec fn witness_lists(witness: Witness) -> (
    Seq<Seq<u8>>,
    Seq<Seq<u8>>,
    Seq<Seq<u8>>,
    Seq<Seq<u8>>,
) {
    (
        byte_strings(witness.state@),
        byte_strings(witness.codes@),
        byte_strings(witness.keys@),
        byte_strings(witness.headers@),
    )
}

/// The four lists of a witness and the bytes behind them, as the guest reads
/// them.
pub open spec fn read_witness(bytes: Seq<u8>) -> Option<
    ((Seq<Seq<u8>>, Seq<Seq<u8>>, Seq<Seq<u8>>, Seq<Seq<u8>>), Seq<u8>),
> {
    match read_list(bytes) {
        Some((state, rest)) => match read_list(rest) {
            Some((codes, rest)) => match read_list(rest) {
                Some((keys, rest)) => match read_list(rest) {
                    Some((headers, rest)) => Some(((state, codes, keys, headers), rest)),
                    None => None,
                },
                None => None,
            },
            None => None,
        },
        None => None,
    }
}

proof fn lemma_vectors_are_encodable(items: Vec<Vec<u8>>)
    ensures
        encodable(byte_strings(items@)),
{
    assert(items@.len() == items.len());
    assert forall|i: int| 0 <= i < byte_strings(items@).len() implies (#[trigger] byte_strings(
        items@,
    )[i]).len() <= u64::MAX by {
        assert(items@[i]@.len() == items@[i].len());
    }
}

proof fn lemma_four_parts(a: Seq<u8>, b: Seq<u8>, c: Seq<u8>, d: Seq<u8>, rest: Seq<u8>)
    ensures
        a + b + c + d + rest == a + (b + (c + (d + rest))),
{
    assert(a + b + c + d + rest =~= a + (b + (c + (d + rest))));
}

/// The guest reads back the very witness that was put into its input, and is left
/// with what stands behind it.
pub proof fn law_witness_reads_back(witness: Witness, rest: Seq<u8>)
    ensures
        read_witness(encoded_witness(witness) + rest) == Some((witness_lists(witness), rest)),
{
    let (state, codes, keys, headers) = witness_lists(witness);
    lemma_vectors_are_encodable(witness.state);
    lemma_vectors_are_encodable(witness.codes);
    lemma_vectors_are_encodable(witness.keys);
    lemma_vectors_are_encodable(witness.headers);
    let after_keys = encoded_list(headers) + rest;
    let after_codes = encoded_list(keys) + after_keys;
    let after_state = encoded_list(codes) + after_codes;
    law_list_reads_back(headers, rest);
    law_list_reads_back(keys, after_keys);
    law_list_reads_back(codes, after_codes);
    law_list_reads_back(state, after_state);
    lemma_four_parts(
        encoded_list(state),
        encoded_list(codes),
        encoded_list(keys),
        encoded_list(headers),
        rest,
    );
}

/// Whether `read` reads `value` from `bytes` and is left with what stands behind
/// them.
pub open spec fn reads_back<T>(
    read: spec_fn(Seq<u8>) -> Option<(T, Seq<u8>)>,
    bytes: Seq<u8>,
    value: T,
) -> bool {
    forall|rest: Seq<u8>| #[trigger] read(bytes + rest) == Some((value, rest))
}

/// What the guest reads from its input: the public part, which is the block, the
/// chain configuration and the keys, then the witness, and the bytes that are
/// left.
pub open spec fn read_guest_input<B, C>(
    input: Seq<u8>,
    read_block: spec_fn(Seq<u8>) -> Option<(B, Seq<u8>)>,
    read_chain_config: spec_fn(Seq<u8>) -> Option<(C, Seq<u8>)>,
) -> Option<
    (
        (B, C, Seq<Seq<u8>>),
        (Seq<Seq<u8>>, Seq<Seq<u8>>, Seq<Seq<u8>>, Seq<Seq<u8>>),
        Seq<u8>,
    ),
> {
    match read_block(input) {
        Some((block, rest)) => match read_chain_config(rest) {
            Some((chain_config, rest)) => match read_list(rest) {
                Some((keys, rest)) => match read_witness(rest) {
                    Some((witness, rest)) => Some(((block, chain_config, keys), witness, rest)),
                    None => None,
                },
                None => None,
            },
            None => None,
        },
        None => None,
    }
}

/// The guest that reads the block and the chain configuration back from their
/// encodings reads the whole record: the public part first, with the keys of the
/// transactions' signers, then the fixture's witness, and no byte is left.
pub proof fn law_guest_input_reads_back<B, C>(
    raw: RawFixture,
    fixture: ConvertedFixture,
    read_block: spec_fn(Seq<u8>) -> Option<(B, Seq<u8>)>,
    read_chain_config: spec_fn(Seq<u8>) -> Option<(C, Seq<u8>)>,
    block: B,
    chain_config: C,
)
    requires
        converts_to(raw, fixture),
        reads_back(read_block, raw.block->Ok_0@, block),
        reads_back(
            read_chain_config,
            chain_config_encoding(raw.chain_config@)->Ok_0,
            chain_config,
        ),
    ensures
        read_guest_input(fixture.stdin@, read_block, read_chain_config) == Some(
            (
                (block, chain_config, signer_keys(raw.transactions@)),
                witness_lists(raw.witness),
                Seq::<u8>::empty(),
            ),
        ),
{
    let block_bytes = raw.block->Ok_0@;
    let config_bytes = chain_config_encoding(raw.chain_config@)->Ok_0;
    let keys = signer_keys(raw.transactions@);
    let after_keys = encoded_witness(raw.witness) + Seq::<u8>::empty();
    let after_config = encoded_list(keys) + after_keys;
    let after_block = config_bytes + after_config;
    assert(raw.transactions@.len() == raw.transactions.len());
    assert(encodable(keys)) by {
        assert forall|i: int| 0 <= i < keys.len() implies (#[trigger] keys[i]).len()
            <= u64::MAX by {
            assert(is_uncompressed(keys[i]));
        }
    }
    law_witness_reads_back(raw.witness, Seq::empty());
    law_list_reads_back(keys, after_keys);
    assert(read_chain_config(config_bytes + after_config) == Some(
        (chain_config, after_config),
    ));
    assert(read_block(block_bytes + after_block) == Some((block, after_block)));
    assert(fixture.stdin@ =~= block_bytes + after_block);
}

/// The expected output is the hash behind its length: 33 bytes, of which the
/// first is 32.
pub proof fn law_expected_output_layout(block_hash: Seq<u8>)
    requires
        block_hash.len() == 32,
    ensures
        framed(block_hash).len() == 33,
        framed(block_hash)[0] == 32,
        framed(block_hash).skip(1) == block_hash,
{
    assert(framed(block_hash).skip(1) =~= block_hash);
}

/// On every zkVM, blocks of different hashes are expected to give different
/// public values, padding included.
pub proof fn law_hashes_are_told_apart(kind: zkVMKind, a: Seq<u8>, b: Seq<u8>)
    requires
        a.len() == 32,
        b.len() == 32,
        normalized(kind, framed(a)) == normalized(kind, framed(b)),
    ensures
        a == b,
{
    law_expected_output_layout(a);
    law_expected_output_layout(b);
    law_normalization_confuses_only_trailing_zeros(kind, framed(a), framed(b));
    assert(framed(b).take(33) =~= framed(b));
}

} // verus!
