//! What is expected of a fixture, what the guest is given of it and which fixtures
//! are picked, told from the fixture itself.

use vstd::multiset::*;
use vstd::prelude::*;
use vstd::seq_lib::*;
use vstd::string::*;
use vstd::utf8::*;

use crate::guest_programs::{GenericGuestFixture, GuestFixture};
use crate::output::{
    law_normalized_values_are_expected_bytes_and_zeros, normalize_expected_public_values,
    normalized, output_matched, public_output_matched, same_bytes,
};
use crate::reth_input::{
    accept_key, all_framed, assemble_fixture, byte_strings, chain_config_encoding,
    convert_fixture_json, converts_to, encodable, encoded_len, encoded_list, encoded_witness, expected_output,
    guest_input, guest_stdin, has_signer, is_uncompressed, keccak256_digest, key_bytes,
    law_list_reads_back, law_witness_reads_back, le_bytes, read_list, read_witness, recover_signer,
    recover_signers, recovered_key, signer_key, signer_keys, witness_lists, ConvertError,
    ConvertedFixture, RawFixture, SignedTransaction, SignerError, UncompressedPublicKey, Witness,
};
use crate::text::decimal;
use crate::zisk_eth_client::{
    byte_order, bytes_le, contains_text, filter_passes, filter_texts, guest_fixture,
    has_fixture_name, is_made_of, json_suffix, name_bytes, readable, selected, stands_at, stem_text,
    text_contains, texts, zisk_eth_client_input_iter, FixtureError,
};
use crate::zkvm::zkVMKind;

verus! {

/// Expected values are padded with zero bytes up to the width of the zkVM and no
/// further: 32 bytes on Airbender and OpenVM, 256 bytes on Zisk. On the other
/// zkVMs they stay.
pub proof fn law_expected_values_are_padded_to_the_width(
    kind: zkVMKind,
    expected: Vec<u8>,
    values: Vec<u8>,
)
    requires
        call_ensures(normalize_expected_public_values, (kind, expected), values),
    ensures
        ({
            let width: int = if kind is Zisk {
                256
            } else if kind is Airbender || kind is OpenVM {
                32
            } else {
                0
            };
            values@.len() == if expected@.len() > width {
                expected@.len() as int
            } else {
                width
            }
        }),
        forall|i: int| 0 <= i < expected@.len() ==> values@[i] == expected@[i],
        forall|i: int| expected@.len() <= i < values@.len() ==> values@[i] == 0,
{
}

/// Byte strings are the same just where they have the same length and the same
/// byte at every place.
pub proof fn law_same_bytes_are_the_same_at_every_place(a: &[u8], b: &[u8], same: bool)
    requires
        call_ensures(same_bytes, (a, b), same),
    ensures
        same <==> a@.len() == b@.len() && forall|i: int| 0 <= i < a@.len() ==> a@[i] == b@[i],
{
    if a@.len() == b@.len() && forall|i: int| 0 <= i < a@.len() ==> a@[i] == b@[i] {
        assert(a@ =~= b@);
    }
}

/// Committed values match just where they are the padded expected ones, byte for
/// byte, on every zkVM.
pub proof fn law_matching_is_equality_with_the_padded_values(
    kind: zkVMKind,
    expected: Vec<u8>,
    committed: &[u8],
    padded: Vec<u8>,
    matched: bool,
)
    requires
        call_ensures(normalize_expected_public_values, (kind, expected), padded),
        call_ensures(output_matched, (kind, expected, committed), matched),
    ensures
        matched <==> padded@.len() == committed@.len() && forall|i: int|
            0 <= i < committed@.len() ==> committed@[i] == padded@[i],
{
    if padded@.len() == committed@.len() && forall|i: int|
        0 <= i < committed@.len() ==> committed@[i] == padded@[i] {
        assert(padded@ =~= committed@);
    }
}

/// A fixture whose expected values are at hand can always be compared, and matches
/// just where its padded values were committed.
pub proof fn law_a_fixture_is_compared_with_its_own_values(
    kind: zkVMKind,
    fixture: &GenericGuestFixture,
    committed: &[u8],
    matched: Result<bool, String>,
)
    requires
        call_ensures(
            public_output_matched::<GenericGuestFixture>,
            (kind, fixture, committed),
            matched,
        ),
    ensures
        matched is Ok,
        ({
            let expected = fixture.expected_public_values@;
            let width: int = if kind is Zisk {
                256
            } else if kind is Airbender || kind is OpenVM {
                32
            } else {
                0
            };
            matched->Ok_0 <==> {
                &&& committed@.len() >= expected.len()
                &&& committed@.len() >= width
                &&& committed@.len() == expected.len() || committed@.len() == width
                &&& forall|i: int| 0 <= i < expected.len() ==> committed@[i] == expected[i]
                &&& forall|i: int| expected.len() <= i < committed@.len() ==> committed@[i] == 0
            }
        }),
{
    law_normalized_values_are_expected_bytes_and_zeros(
        kind,
        fixture.expected_public_values@,
        committed@,
    );
}

/// Any fixture is compared with the values that it says it expects, and what it
/// cannot say is handed on as it was told.
pub proof fn law_a_fixture_is_asked_what_it_expects<F: GuestFixture>(
    kind: zkVMKind,
    fixture: &F,
    committed: &[u8],
    matched: Result<bool, String>,
)
    requires
        call_ensures(public_output_matched::<F>, (kind, fixture, committed), matched),
    ensures
        exists|answer: Result<Vec<u8>, String>| #[trigger]
            call_ensures(F::expected_public_values, (fixture,), answer) && {
                &&& answer is Err ==> matched == Err::<bool, String>(answer->Err_0)
                &&& answer is Ok ==> matched is Ok
                &&& answer is Ok ==> (matched->Ok_0 <==> {
                    let expected = answer->Ok_0@;
                    let width: int = if kind is Zisk {
                        256
                    } else if kind is Airbender || kind is OpenVM {
                        32
                    } else {
                        0
                    };
                    &&& committed@.len() >= expected.len()
                    &&& committed@.len() >= width
                    &&& committed@.len() == expected.len() || committed@.len() == width
                    &&& forall|i: int| 0 <= i < expected.len() ==> committed@[i] == expected[i]
                    &&& forall|i: int| expected.len() <= i < committed@.len() ==> committed@[i] == 0
                })
            },
{
    let answer = choose|answer: Result<Vec<u8>, String>| #[trigger]
        call_ensures(F::expected_public_values, (fixture,), answer) && match answer {
            Ok(expected) => matched == Ok::<bool, String>(
                normalized(kind, expected@) == committed@,
            ),
            Err(error) => matched == Err::<bool, String>(error),
        };
    if answer is Ok {
        law_normalized_values_are_expected_bytes_and_zeros(kind, answer->Ok_0@, committed@);
    }
}

/// A fixture whose parts are at hand tells its own name, input and expected
/// values, and the gas of its block.
pub proof fn law_a_fixture_tells_its_parts(
    fixture: GenericGuestFixture,
    name: String,
    input: Result<Vec<u8>, String>,
    expected: Result<Vec<u8>, String>,
    metadata: String,
    gas: String,
)
    requires
        call_ensures(GenericGuestFixture::name, (&fixture,), name),
        call_ensures(GenericGuestFixture::input, (&fixture,), input),
        call_ensures(GenericGuestFixture::expected_public_values, (&fixture,), expected),
        call_ensures(GenericGuestFixture::metadata, (&fixture,), metadata),
        call_ensures(decimal, (fixture.metadata.block_used_gas,), gas),
    ensures
        name@ == fixture.name@,
        input is Ok && input->Ok_0@ == fixture.input@,
        expected is Ok && expected->Ok_0@ == fixture.expected_public_values@,
        metadata@ == "{\"block_used_gas\":"@ + gas@ + "}"@,
{
}

/// A recovered key is taken just where it has 65 bytes, and then byte for byte.
/// Otherwise the failure names the transaction.
pub proof fn law_keys_of_sixty_five_bytes_are_taken(
    index: usize,
    recovered: Result<Vec<u8>, String>,
    outcome: Result<UncompressedPublicKey, SignerError>,
)
    requires
        call_ensures(accept_key, (index, recovered), outcome),
    ensures
        outcome is Ok <==> recovered is Ok && recovered->Ok_0@.len() == 65,
        outcome is Ok ==> outcome->Ok_0.bytes@ == recovered->Ok_0@,
        recovered is Ok && recovered->Ok_0@.len() != 65 ==> (outcome matches Err(
            SignerError::Encode { index: at, len },
        ) && at == index && len == recovered->Ok_0@.len()),
        recovered is Err ==> (outcome matches Err(SignerError::Recover { index: at, error })
            && at == index && error@ == recovered->Err_0@),
{
}

/// The signer of a transaction is the one that its own signature gives over the
/// digest of all that was signed.
pub proof fn law_a_signer_is_recovered_from_the_signature(
    index: usize,
    tx: &SignedTransaction,
    outcome: Result<UncompressedPublicKey, SignerError>,
)
    requires
        call_ensures(recover_signer, (index, tx), outcome),
    ensures
        ({
            let recovered = recovered_key(
                tx.r@,
                tx.s@,
                tx.odd_y_parity,
                keccak256_digest(tx.signing_payload@),
            );
            &&& outcome is Ok <==> recovered is Ok
            &&& outcome is Ok ==> outcome->Ok_0.bytes@ == recovered->Ok_0
                && outcome->Ok_0.bytes@.len() == 65 && outcome->Ok_0.bytes@[0] == 4
            &&& outcome is Err ==> (outcome matches Err(SignerError::Recover { index: at, error })
                && at == index && error@ == recovered->Err_0)
        }),
{
}

/// Signers are recovered just where every transaction has one: one key for each
/// transaction, at the same place. A failure is that of the first transaction
/// without a signer.
pub proof fn law_every_transaction_has_its_signer(
    txs: &Vec<SignedTransaction>,
    signers: Result<Vec<UncompressedPublicKey>, SignerError>,
)
    requires
        call_ensures(recover_signers, (txs,), signers),
    ensures
        signers is Ok ==> signers->Ok_0@.len() == txs@.len(),
        signers is Ok ==> forall|i: int|
            #![trigger txs@[i]]
            0 <= i < txs@.len() ==> recovered_key(
                txs@[i].r@,
                txs@[i].s@,
                txs@[i].odd_y_parity,
                keccak256_digest(txs@[i].signing_payload@),
            ) == Ok::<Seq<u8>, Seq<char>>(signers->Ok_0@[i].bytes@),
        signers is Err ==> (signers->Err_0 matches SignerError::Recover { index, error } && index
            < txs@.len() && recovered_key(
            txs@[index as int].r@,
            txs@[index as int].s@,
            txs@[index as int].odd_y_parity,
            keccak256_digest(txs@[index as int].signing_payload@),
        ) == Err::<Seq<u8>, Seq<char>>(error@) && forall|i: int|
            #![trigger txs@[i]]
            0 <= i < index ==> recovered_key(
                txs@[i].r@,
                txs@[i].s@,
                txs@[i].odd_y_parity,
                keccak256_digest(txs@[i].signing_payload@),
            ) is Ok),
{
    if signers is Ok {
        let keys = signers->Ok_0@;
        assert(key_bytes(keys).len() == signer_keys(txs@).len());
        assert forall|i: int|
            #![trigger txs@[i]]
            0 <= i < txs@.len() implies recovered_key(
            txs@[i].r@,
            txs@[i].s@,
            txs@[i].odd_y_parity,
            keccak256_digest(txs@[i].signing_payload@),
        ) == Ok::<Seq<u8>, Seq<char>>(keys[i].bytes@) by {
            assert(has_signer(txs@[i]));
            assert(key_bytes(keys)[i] == signer_keys(txs@)[i]);
        }
    } else {
        assert forall|i: int|
            #![trigger txs@[i]]
            0 <= i < signers->Err_0->Recover_index implies recovered_key(
            txs@[i].r@,
            txs@[i].s@,
            txs@[i].odd_y_parity,
            keccak256_digest(txs@[i].signing_payload@),
        ) is Ok by {
            assert(has_signer(txs@[i]));
        }
    }
}

/// A length is encoded in one byte up to 250. A longer one takes a marker that
/// tells its width, and the bytes of the length with the lowest first.
pub proof fn law_lengths_are_encoded_by_width(len: nat)
    requires
        len <= u64::MAX,
    ensures
        ({
            let bytes = encoded_len(len);
            if len <= 250 {
                bytes.len() == 1 && bytes[0] == len
            } else if len < 0x1_0000 {
                bytes.len() == 3 && bytes[0] == 251 && bytes[1] + 0x100 * bytes[2] == len
            } else if len < 0x1_0000_0000 {
                bytes.len() == 5 && bytes[0] == 252 && bytes[1] + 0x100 * bytes[2] + 0x1_0000
                    * bytes[3] + 0x100_0000 * bytes[4] == len
            } else {
                bytes.len() == 9 && bytes[0] == 253 && bytes[1] + 0x100 * bytes[2] + 0x1_0000
                    * bytes[3] + 0x100_0000 * bytes[4] + 0x1_0000_0000 * bytes[5]
                    + 0x100_0000_0000 * bytes[6] + 0x1_0000_0000_0000 * bytes[7]
                    + 0x100_0000_0000_0000 * bytes[8] == len
            }
        }),
{
    reveal_with_fuel(le_bytes, 9);
}

/// A list is encoded item by item: with one item more, its number grows and the item
/// comes last, behind its own length.
pub proof fn law_lists_are_encoded_item_by_item(items: Seq<Seq<u8>>, added: Seq<u8>)
    ensures
        encoded_list(Seq::empty()) == encoded_len(0),
        ({
            let listed = encoded_list(items).skip(encoded_len(items.len()).len() as int);
            encoded_list(items.push(added)) == encoded_len(items.len() + 1) + listed + encoded_len(
                added.len(),
            ) + added
        }),
{
    let listed = encoded_list(items).skip(encoded_len(items.len()).len() as int);
    assert(listed =~= all_framed(items));
    lemma_framed_item_by_item(items, added);
    assert(encoded_len(0) + all_framed(Seq::empty()) =~= encoded_len(0));
    assert(encoded_list(items.push(added)) =~= encoded_len(items.len() + 1) + listed + encoded_len(
        added.len(),
    ) + added);
}

proof fn lemma_framed_item_by_item(items: Seq<Seq<u8>>, added: Seq<u8>)
    ensures
        all_framed(items.push(added)) == all_framed(items) + (encoded_len(added.len()) + added),
    decreases items.len(),
{
    let more = items.push(added);
    if items.len() == 0 {
        assert(more.skip(1) =~= Seq::empty());
        assert(all_framed(more.skip(1)) =~= Seq::empty());
        assert(all_framed(more) =~= all_framed(items) + (encoded_len(added.len()) + added));
    } else {
        lemma_framed_item_by_item(items.skip(1), added);
        assert(more.skip(1) =~= items.skip(1).push(added));
        assert(all_framed(more) =~= all_framed(items) + (encoded_len(added.len()) + added));
    }
}

/// The guest is expected to commit the hash of the block behind its length: the
/// byte 32 and then all bytes of the hash.
pub proof fn law_the_hash_is_committed_behind_its_length(
    block_hash: &[u8; 32],
    expected: Result<Vec<u8>, String>,
)
    requires
        call_ensures(expected_output, (block_hash,), expected),
    ensures
        expected is Ok,
        expected->Ok_0@.len() == 33,
        expected->Ok_0@[0] == 32,
        expected->Ok_0@.skip(1) == block_hash@,
{
    assert(expected->Ok_0@.skip(1) =~= block_hash@);
}

/// The list that a witness is made of reads back with the very bytes of the
/// vectors.
proof fn lemma_byte_strings(items: Vec<Vec<u8>>)
    ensures
        byte_strings(items@).len() == items@.len(),
        forall|i: int|
            0 <= i < items@.len() ==> #[trigger] byte_strings(items@)[i] == items@[i]@,
{
}

proof fn lemma_stdin_parts(
    stdin: Seq<u8>,
    block: Seq<u8>,
    chain_config: Seq<u8>,
    keys: Seq<Seq<u8>>,
    witness: Witness,
)
    requires
        stdin == guest_input(block, chain_config, keys, witness),
        encodable(keys),
    ensures
        stdin.len() >= block.len() + chain_config.len(),
        stdin.take(block.len() as int) == block,
        stdin.subrange(block.len() as int, (block.len() + chain_config.len()) as int) == chain_config,
        read_list(stdin.skip((block.len() + chain_config.len()) as int)) == Some(
            (keys, encoded_witness(witness)),
        ),
        read_witness(encoded_witness(witness)) == Some(
            (witness_lists(witness), Seq::<u8>::empty()),
        ),
{
    let tail = encoded_witness(witness);
    assert(stdin.take(block.len() as int) =~= block);
    assert(stdin.subrange(block.len() as int, (block.len() + chain_config.len()) as int) =~= chain_config);
    assert(stdin.skip((block.len() + chain_config.len()) as int) =~= encoded_list(keys) + tail);
    law_list_reads_back(keys, tail);
    law_witness_reads_back(witness, Seq::empty());
    assert(tail + Seq::<u8>::empty() =~= tail);
}

/// The input of the guest begins with the encoded block, goes on with the encoded
/// chain configuration, and then holds the keys and the four lists of the witness
/// to the last byte, each item as it was given.
pub proof fn law_the_guest_is_given_all_parts_in_order(
    block: &Vec<u8>,
    chain_config: &Vec<u8>,
    keys: &Vec<UncompressedPublicKey>,
    witness: &Witness,
    stdin: Result<Vec<u8>, String>,
)
    requires
        call_ensures(guest_stdin, (block, chain_config, keys, witness), stdin),
    ensures
        stdin is Ok,
        stdin->Ok_0@.len() >= block@.len() + chain_config@.len(),
        stdin->Ok_0@.take(block@.len() as int) == block@,
        stdin->Ok_0@.subrange(block@.len() as int, (block@.len() + chain_config@.len()) as int)
            == chain_config@,
        ({
            let read = read_list(stdin->Ok_0@.skip((block@.len() + chain_config@.len()) as int));
            let (listed, behind) = read->Some_0;
            let rest = read_witness(behind);
            let ((state, codes, hashed, headers), left) = rest->Some_0;
            &&& read is Some
            &&& listed.len() == keys@.len()
            &&& forall|i: int| 0 <= i < keys@.len() ==> #[trigger] listed[i] == keys@[i].bytes@
            &&& rest is Some
            &&& left.len() == 0
            &&& state.len() == witness.state@.len()
            &&& forall|i: int| 0 <= i < state.len() ==> #[trigger] state[i] == witness.state@[i]@
            &&& codes.len() == witness.codes@.len()
            &&& forall|i: int| 0 <= i < codes.len() ==> #[trigger] codes[i] == witness.codes@[i]@
            &&& hashed.len() == witness.keys@.len()
            &&& forall|i: int| 0 <= i < hashed.len() ==> #[trigger] hashed[i] == witness.keys@[i]@
            &&& headers.len() == witness.headers@.len()
            &&& forall|i: int|
                0 <= i < headers.len() ==> #[trigger] headers[i] == witness.headers@[i]@
        }),
{
    let bytes = key_bytes(keys@);
    assert(keys@.len() == keys.len());
    assert(encodable(bytes)) by {
        assert forall|i: int| 0 <= i < bytes.len() implies (#[trigger] bytes[i]).len()
            <= u64::MAX by {
            assert(keys@[i].bytes@.len() == keys@[i].bytes.len());
        }
    }
    lemma_stdin_parts(stdin->Ok_0@, block@, chain_config@, bytes, *witness);
    lemma_byte_strings(witness.state);
    lemma_byte_strings(witness.codes);
    lemma_byte_strings(witness.keys);
    lemma_byte_strings(witness.headers);
}

/// A fixture is put together just where its parts are at hand: with its own name
/// and gas, the input that the guest is given of the parts and the output that is
/// expected of the hash. Of several failures that of the signers comes first, then
/// that of the block.
pub proof fn law_a_fixture_is_put_together_from_its_parts(
    name: String,
    gas_used: u64,
    block_hash: &[u8; 32],
    signers: Result<Vec<UncompressedPublicKey>, SignerError>,
    block: Result<Vec<u8>, String>,
    chain_config: Result<Vec<u8>, String>,
    witness: &Witness,
    converted: Result<ConvertedFixture, ConvertError>,
    expected: Result<Vec<u8>, String>,
    stdin: Result<Vec<u8>, String>,
)
    requires
        call_ensures(
            assemble_fixture,
            (name, gas_used, block_hash, signers, block, chain_config, witness),
            converted,
        ),
        call_ensures(expected_output, (block_hash,), expected),
        signers is Ok && block is Ok && chain_config is Ok ==> call_ensures(
            guest_stdin,
            (&block->Ok_0, &chain_config->Ok_0, &signers->Ok_0, witness),
            stdin,
        ),
    ensures
        converted is Ok <==> signers is Ok && block is Ok && chain_config is Ok,
        converted is Ok ==> converted->Ok_0.name@ == name@,
        converted is Ok ==> converted->Ok_0.gas_used == gas_used,
        converted is Ok ==> converted->Ok_0.expected@ == expected->Ok_0@,
        converted is Ok ==> converted->Ok_0.stdin@ == stdin->Ok_0@,
        signers is Err ==> converted->Err_0 == ConvertError::Signers(signers->Err_0),
        signers is Ok && block is Err ==> converted->Err_0 == ConvertError::EncodeInput(
            block->Err_0,
        ),
        signers is Ok && block is Ok && chain_config is Err ==> converted->Err_0
            == ConvertError::EncodeInput(chain_config->Err_0),
{
}

/// The expected output of every fixture that converts, whatever the length of its
/// header is, is the digest of the whole encoded header behind its length.
pub proof fn law_the_expected_output_is_the_hash_of_the_header(
    raw: RawFixture,
    fixture: ConvertedFixture,
)
    requires
        converts_to(raw, fixture),
    ensures
        fixture.expected@.len() == 33,
        fixture.expected@[0] == 32,
        fixture.expected@.skip(1) == keccak256_digest(raw.header_rlp@),
{
    assert(fixture.expected@.skip(1) =~= keccak256_digest(raw.header_rlp@));
}

/// A fixture that was read converts just where every transaction's signature gives
/// a key, the block is encoded and the chain configuration can be.
pub proof fn law_fixtures_convert_where_their_parts_do(
    raw: RawFixture,
    converted: Result<ConvertedFixture, ConvertError>,
)
    requires
        call_ensures(
            convert_fixture_json,
            (Ok::<RawFixture, String>(raw),),
            converted,
        ),
    ensures
        converted is Ok <==> {
            &&& raw.block is Ok
            &&& chain_config_encoding(raw.chain_config@) is Ok
            &&& forall|i: int|
                0 <= i < raw.transactions@.len() ==> recovered_key(
                    (#[trigger] raw.transactions@[i]).r@,
                    raw.transactions@[i].s@,
                    raw.transactions@[i].odd_y_parity,
                    keccak256_digest(raw.transactions@[i].signing_payload@),
                ) is Ok
        },
{
    let txs = raw.transactions@;
    if forall|i: int|
        0 <= i < txs.len() ==> recovered_key(
            (#[trigger] txs[i]).r@,
            txs[i].s@,
            txs[i].odd_y_parity,
            keccak256_digest(txs[i].signing_payload@),
        ) is Ok {
        assert forall|i: int| 0 <= i < txs.len() implies has_signer(#[trigger] txs[i]) by {}
    }
    if converted is Ok {
        assert forall|i: int| 0 <= i < txs.len() implies recovered_key(
            (#[trigger] txs[i]).r@,
            txs[i].s@,
            txs[i].odd_y_parity,
            keccak256_digest(txs[i].signing_payload@),
        ) is Ok by {
            assert(has_signer(txs[i]));
        }
    }
}

/// A converted fixture keeps its name and the gas of its block. What is expected
/// of it is the digest of its whole header. The guest is given its block, its chain
/// configuration, the key of each transaction's signer and its witness, in this
/// order and complete.
pub proof fn law_a_converted_fixture_is_its_own(
    raw: RawFixture,
    fixture: ConvertedFixture,
)
    requires
        call_ensures(
            convert_fixture_json,
            (Ok::<RawFixture, String>(raw),),
            Ok::<ConvertedFixture, ConvertError>(fixture),
        ),
    ensures
        fixture.name@ == raw.name@,
        fixture.gas_used == raw.gas_used,
        fixture.expected@.len() == 33,
        fixture.expected@[0] == 32,
        fixture.expected@.skip(1) == keccak256_digest(raw.header_rlp@),
        ({
            let block = raw.block->Ok_0@;
            let config = chain_config_encoding(raw.chain_config@)->Ok_0;
            let txs = raw.transactions@;
            let read = read_list(fixture.stdin@.skip((block.len() + config.len()) as int));
            let (listed, behind) = read->Some_0;
            let rest = read_witness(behind);
            let ((state, codes, hashed, headers), left) = rest->Some_0;
            &&& raw.block is Ok
            &&& chain_config_encoding(raw.chain_config@) is Ok
            &&& fixture.stdin@.len() >= block.len() + config.len()
            &&& fixture.stdin@.take(block.len() as int) == block
            &&& fixture.stdin@.subrange(block.len() as int, (block.len() + config.len()) as int) == config
            &&& read is Some
            &&& listed.len() == txs.len()
            &&& forall|i: int|
                0 <= i < txs.len() ==> Ok::<Seq<u8>, Seq<char>>(listed[i]) == recovered_key(
                    (#[trigger] txs[i]).r@,
                    txs[i].s@,
                    txs[i].odd_y_parity,
                    keccak256_digest(txs[i].signing_payload@),
                )
            &&& rest is Some
            &&& left.len() == 0
            &&& state.len() == raw.witness.state@.len()
            &&& forall|i: int|
                0 <= i < state.len() ==> #[trigger] state[i] == raw.witness.state@[i]@
            &&& codes.len() == raw.witness.codes@.len()
            &&& forall|i: int|
                0 <= i < codes.len() ==> #[trigger] codes[i] == raw.witness.codes@[i]@
            &&& hashed.len() == raw.witness.keys@.len()
            &&& forall|i: int|
                0 <= i < hashed.len() ==> #[trigger] hashed[i] == raw.witness.keys@[i]@
            &&& headers.len() == raw.witness.headers@.len()
            &&& forall|i: int|
                0 <= i < headers.len() ==> #[trigger] headers[i] == raw.witness.headers@[i]@
        }),
{
    let block = raw.block->Ok_0@;
    let config = chain_config_encoding(raw.chain_config@)->Ok_0;
    let txs = raw.transactions@;
    let keys = signer_keys(txs);
    law_the_expected_output_is_the_hash_of_the_header(raw, fixture);
    assert(raw.transactions@.len() == raw.transactions.len());
    assert(encodable(keys)) by {
        assert forall|i: int| 0 <= i < keys.len() implies (#[trigger] keys[i]).len()
            <= u64::MAX by {
            assert(is_uncompressed(keys[i]));
        }
    }
    lemma_stdin_parts(fixture.stdin@, block, config, keys, raw.witness);
    assert forall|i: int| 0 <= i < txs.len() implies Ok::<Seq<u8>, Seq<char>>(keys[i])
        == recovered_key(
        (#[trigger] txs[i]).r@,
        txs[i].s@,
        txs[i].odd_y_parity,
        keccak256_digest(txs[i].signing_payload@),
    ) by {
        assert(has_signer(txs[i]));
        assert(keys[i] == signer_key(txs[i])->Ok_0);
    }
    lemma_byte_strings(raw.witness.state);
    lemma_byte_strings(raw.witness.codes);
    lemma_byte_strings(raw.witness.keys);
    lemma_byte_strings(raw.witness.headers);
}

/// A fixture that does not convert is refused for what it lacks: for its text where
/// it could not be read, else for the first transaction without a signer, else for
/// its block, else for its chain configuration.
pub proof fn law_a_refused_fixture_lacks_a_part(
    parsed: Result<RawFixture, String>,
    error: ConvertError,
)
    requires
        call_ensures(
            convert_fixture_json,
            (parsed,),
            Err::<ConvertedFixture, ConvertError>(error),
        ),
    ensures
        parsed is Err ==> error == ConvertError::Parse(parsed->Err_0),
        parsed is Ok ==> match error {
            ConvertError::Signers(SignerError::Recover { index, error: cause }) => {
                let txs = parsed->Ok_0.transactions@;
                &&& index < txs.len()
                &&& recovered_key(
                    txs[index as int].r@,
                    txs[index as int].s@,
                    txs[index as int].odd_y_parity,
                    keccak256_digest(txs[index as int].signing_payload@),
                ) == Err::<Seq<u8>, Seq<char>>(cause@)
                &&& forall|i: int|
                    0 <= i < index ==> recovered_key(
                        (#[trigger] txs[i]).r@,
                        txs[i].s@,
                        txs[i].odd_y_parity,
                        keccak256_digest(txs[i].signing_payload@),
                    ) is Ok
            },
            ConvertError::EncodeInput(cause) => {
                let txs = parsed->Ok_0.transactions@;
                &&& forall|i: int|
                    0 <= i < txs.len() ==> recovered_key(
                        (#[trigger] txs[i]).r@,
                        txs[i].s@,
                        txs[i].odd_y_parity,
                        keccak256_digest(txs[i].signing_payload@),
                    ) is Ok
                &&& parsed->Ok_0.block is Err ==> cause == parsed->Ok_0.block->Err_0
                &&& parsed->Ok_0.block is Ok ==> chain_config_encoding(
                    parsed->Ok_0.chain_config@,
                ) == Err::<Seq<u8>, Seq<char>>(cause@)
            },
            _ => false,
        },
{
    if parsed is Ok {
        let txs = parsed->Ok_0.transactions@;
        assert forall|i: int|
            0 <= i < txs.len() && has_signer(#[trigger] txs[i]) implies recovered_key(
            txs[i].r@,
            txs[i].s@,
            txs[i].odd_y_parity,
            keccak256_digest(txs[i].signing_payload@),
        ) is Ok by {}
    }
}

/// The messages of a conversion say which step failed, and that of a signer names
/// the transaction by its place.
pub proof fn law_conversion_failures_are_told(
    failure: ConvertError,
    message: String,
    signer: SignerError,
    signer_message: String,
    at: u64,
    place: String,
)
    requires
        call_ensures(ConvertError::message, (&failure,), message),
        call_ensures(SignerError::message, (&signer,), signer_message),
        signer matches SignerError::Recover { index, .. } ==> at == index,
        signer matches SignerError::Encode { index, .. } ==> at == index,
        call_ensures(decimal, (at,), place),
    ensures
        failure is Parse ==> message@ == "Failed to parse stateless validation fixture"@,
        failure is Signers ==> message@ == "Failed to recover transaction signer public keys"@,
        failure is EncodeHash ==> message@ == "Failed to encode expected block hash"@,
        failure is EncodeInput ==> message@
            == "Failed to serialize (RethInputPublic, RethInputWitness)"@,
        signer is Recover ==> signer_message@ == "failed to recover signature for tx #"@ + place@,
        signer is Encode ==> signer_message@ == "failed to encode public key for tx #"@ + place@
            + ": could not convert slice to array"@,
{
}

/// A file is a fixture just where its name ends in `.json` behind at least one
/// byte.
pub proof fn law_fixture_names_end_in_json(name: &Vec<u8>, fixture: bool)
    requires
        call_ensures(has_fixture_name, (name,), fixture),
    ensures
        fixture <==> {
            let len = name@.len() as int;
            &&& len >= 6
            &&& name@[len - 5] as char == '.'
            &&& name@[len - 4] as char == 'j'
            &&& name@[len - 3] as char == 's'
            &&& name@[len - 2] as char == 'o'
            &&& name@[len - 1] as char == 'n'
        },
{
    let len = name@.len() as int;
    if len >= 6 {
        let suffix = name@.skip(len - 5);
        assert(suffix[0] == name@[len - 5] && suffix[1] == name@[len - 4] && suffix[2] == name@[len
            - 3] && suffix[3] == name@[len - 2] && suffix[4] == name@[len - 1]);
        if name@[len - 5] as char == '.' && name@[len - 4] as char == 'j' && name@[len - 3] as char
            == 's' && name@[len - 2] as char == 'o' && name@[len - 1] as char == 'n' {
            assert(suffix =~= json_suffix());
        }
    }
}

/// A text contains another just where it has all characters of it in a row, from
/// some place on.
pub proof fn law_contained_texts_stand_somewhere(text: &str, needle: &str, contained: bool)
    requires
        call_ensures(text_contains, (text, needle), contained),
    ensures
        contained <==> exists|at: int|
            0 <= at <= text@.len() - needle@.len() && #[trigger] text@.skip(at).take(
                needle@.len() as int,
            ) == needle@,
{
    lemma_stands_somewhere(text@, needle@);
}

proof fn lemma_stands_somewhere(text: Seq<char>, needle: Seq<char>)
    ensures
        contains_text(text, needle) <==> exists|at: int|
            0 <= at <= text.len() - needle.len() && #[trigger] text.skip(at).take(
                needle.len() as int,
            ) == needle,
{
    if contains_text(text, needle) {
        let at = choose|at: int| stands_at(text, needle, at);
        assert(text.skip(at).take(needle.len() as int) =~= text.subrange(at, at + needle.len()));
    }
    if exists|at: int|
        0 <= at <= text.len() - needle.len() && #[trigger] text.skip(at).take(needle.len() as int)
            == needle {
        let at = choose|at: int|
            0 <= at <= text.len() - needle.len() && #[trigger] text.skip(at).take(
                needle.len() as int,
            ) == needle;
        assert(text.skip(at).take(needle.len() as int) =~= text.subrange(at, at + needle.len()));
        assert(stands_at(text, needle, at));
    }
}

/// A filter lets a fixture through just where one of its needles stands in the
/// name before `.json`. A name that is no text before it counts as empty. Without
/// a filter every fixture is let through.
pub proof fn law_filters_look_into_the_stem(
    filter: Option<&Vec<String>>,
    name: &Vec<u8>,
    stem: Seq<char>,
    passed: bool,
)
    requires
        call_ensures(filter_passes, (filter, name), passed),
        name@.len() >= 5,
        valid_utf8(name@.take(name@.len() - 5)) ==> stem == decode_utf8(
            name@.take(name@.len() - 5),
        ),
        !valid_utf8(name@.take(name@.len() - 5)) ==> stem.len() == 0,
    ensures
        filter is None ==> passed,
        filter is Some ==> (passed <==> exists|i: int, at: int|
            0 <= i < filter->0@.len() && 0 <= at <= stem.len() - filter->0@[i]@.len()
                && #[trigger] stem.skip(at).take((#[trigger] filter->0@[i])@.len() as int)
                == filter->0@[i]@),
{
    if let Some(vector) = filter {
        let needles = vector@;
        assert(stem =~= stem_text(name@));
        if passed {
            let i = choose|i: int|
                0 <= i < texts(needles).len() && contains_text(stem, #[trigger] texts(needles)[i]);
            lemma_stands_somewhere(stem, needles[i]@);
            let at = choose|at: int|
                0 <= at <= stem.len() - needles[i]@.len() && #[trigger] stem.skip(at).take(
                    needles[i]@.len() as int,
                ) == needles[i]@;
            assert(stem.skip(at).take(needles[i]@.len() as int) == needles[i]@);
        }
        if exists|i: int, at: int|
            0 <= i < needles.len() && 0 <= at <= stem.len() - needles[i]@.len()
                && #[trigger] stem.skip(at).take((#[trigger] needles[i])@.len() as int)
                == needles[i]@ {
            let (i, at) = choose|i: int, at: int|
                0 <= i < needles.len() && 0 <= at <= stem.len() - needles[i]@.len()
                    && #[trigger] stem.skip(at).take((#[trigger] needles[i])@.len() as int)
                    == needles[i]@;
            lemma_stands_somewhere(stem, needles[i]@);
            assert(contains_text(stem, texts(needles)[i]));
        }
    }
}

/// The filter can be asked about every fixture.
pub proof fn law_filters_can_be_asked_about_fixtures(
    filter: Option<&Vec<String>>,
    name: &Vec<u8>,
    fixture: bool,
)
    requires
        call_ensures(has_fixture_name, (name,), fixture),
        fixture,
    ensures
        call_requires(filter_passes, (filter, name)),
        name@.len() >= 6,
{
}

/// A folder that could not be read gives no fixtures, and the failure names the
/// folder and the cause.
pub proof fn law_unreadable_folders_are_named(
    folder: &str,
    cause: String,
    filter: Option<&Vec<String>>,
    picked: Result<Vec<Vec<u8>>, FixtureError>,
)
    requires
        call_ensures(
            zisk_eth_client_input_iter,
            (folder, Err::<Vec<Option<Vec<u8>>>, String>(cause), filter),
            picked,
        ),
    ensures
        picked matches Err(FixtureError::Folder { path, cause: told }) && path@ == folder@ && told
            == cause,
{
}

/// Nothing is picked from an empty folder. With one entry more, its name is picked
/// as well where the entry could be read, its name is that of a fixture and the
/// filter lets it through; all other names are picked as before, and as often.
pub proof fn law_each_entry_is_picked_for_itself(
    folder: &str,
    fewer: Vec<Option<Vec<u8>>>,
    more: Vec<Option<Vec<u8>>>,
    added: Option<Vec<u8>>,
    filter: Option<&Vec<String>>,
    picked_of_fewer: Result<Vec<Vec<u8>>, FixtureError>,
    picked_of_more: Result<Vec<Vec<u8>>, FixtureError>,
    fixture: bool,
    passed: bool,
)
    requires
        call_ensures(
            zisk_eth_client_input_iter,
            (folder, Ok::<Vec<Option<Vec<u8>>>, String>(fewer), filter),
            picked_of_fewer,
        ),
        call_ensures(
            zisk_eth_client_input_iter,
            (folder, Ok::<Vec<Option<Vec<u8>>>, String>(more), filter),
            picked_of_more,
        ),
        more@ == fewer@.push(added),
        added is Some ==> call_ensures(has_fixture_name, (&added->0,), fixture),
        added is Some && fixture ==> call_ensures(filter_passes, (filter, &added->0), passed),
    ensures
        picked_of_fewer is Ok,
        picked_of_more is Ok,
        fewer@.len() == 0 ==> picked_of_fewer->Ok_0@.len() == 0,
        ({
            let before = picked_of_fewer->Ok_0@.map_values(|name: Vec<u8>| name@).to_multiset();
            let after = picked_of_more->Ok_0@.map_values(|name: Vec<u8>| name@).to_multiset();
            after == if added is Some && fixture && passed {
                before.insert(added->0@)
            } else {
                before
            }
        }),
{
    reveal(Seq::filter);
    let texts = filter_texts(filter);
    assert(more@.drop_last() =~= fewer@);
    assert(picked_of_fewer->Ok_0@.map_values(|name: Vec<u8>| name@) =~= name_bytes(
        picked_of_fewer->Ok_0@,
    ));
    assert(picked_of_more->Ok_0@.map_values(|name: Vec<u8>| name@) =~= name_bytes(
        picked_of_more->Ok_0@,
    ));
    if let Some(name) = added {
        let before = readable(fewer@);
        assert(before.push(name@).drop_last() =~= before);
        to_multiset_build(selected(fewer@, texts), name@);
    }
    if fewer@.len() == 0 {
        let names = name_bytes(picked_of_fewer->Ok_0@);
        assert(selected(fewer@, texts) =~= Seq::empty());
        to_multiset_len(names);
        to_multiset_len(Seq::<Seq<u8>>::empty());
    }
}

proof fn lemma_byte_order_by_places(a: Seq<u8>, b: Seq<u8>)
    requires
        bytes_le(a, b),
    ensures
        exists|at: int|
            0 <= at <= a.len() && at <= b.len() && #[trigger] a.take(at) == b.take(at) && (at
                == a.len() || (at < b.len() && a[at] < b[at])),
    decreases a.len(),
{
    if a.len() == 0 {
        assert(a.take(0) =~= b.take(0));
    } else if a[0] < b[0] {
        assert(a.take(0) =~= b.take(0));
    } else {
        let (c, d) = (a.skip(1), b.skip(1));
        lemma_byte_order_by_places(c, d);
        let at = choose|at: int|
            0 <= at <= c.len() && at <= d.len() && #[trigger] c.take(at) == d.take(at) && (at
                == c.len() || (at < d.len() && c[at] < d[at]));
        assert forall|i: int| 0 <= i < at + 1 implies a[i] == b[i] by {
            if i > 0 {
                assert(c.take(at)[i - 1] == d.take(at)[i - 1]);
            }
        }
        assert(a.take(at + 1) =~= b.take(at + 1));
    }
}

/// Fixtures are picked in the order of their names: of two picked names the earlier
/// one is a beginning of the later one, or has the lower byte at the first place at
/// which they differ.
pub proof fn law_fixtures_come_in_the_order_of_their_names(
    folder: &str,
    listing: Vec<Option<Vec<u8>>>,
    filter: Option<&Vec<String>>,
    picked: Vec<Vec<u8>>,
    i: int,
    j: int,
)
    requires
        call_ensures(
            zisk_eth_client_input_iter,
            (folder, Ok::<Vec<Option<Vec<u8>>>, String>(listing), filter),
            Ok::<Vec<Vec<u8>>, FixtureError>(picked),
        ),
        0 <= i < j < picked@.len(),
    ensures
        exists|at: int|
            0 <= at <= picked@[i]@.len() && at <= picked@[j]@.len() && #[trigger] picked@[i]@.take(
                at,
            ) == picked@[j]@.take(at) && (at == picked@[i]@.len() || (at < picked@[j]@.len()
                && picked@[i]@[at] < picked@[j]@[at])),
{
    let names = name_bytes(picked@);
    let leq = byte_order();
    assert(leq(names[i], names[j]));
    lemma_byte_order_by_places(picked@[i]@, picked@[j]@);
}

/// The guest fixture of a file is made of what the file converts to: its name, the
/// input that the guest is given, the output that is expected and the gas of the
/// block. A failure names the file.
pub proof fn law_a_fixture_file_is_converted(
    path: &str,
    read: Result<Result<RawFixture, String>, String>,
    converted: Result<ConvertedFixture, ConvertError>,
    fixture: Result<GenericGuestFixture, FixtureError>,
)
    requires
        call_ensures(guest_fixture, (path, read), fixture),
        read is Ok ==> call_ensures(convert_fixture_json, (read->Ok_0,), converted),
    ensures
        read is Err ==> (fixture matches Err(FixtureError::Read { path: at, cause }) && at@
            == path@ && cause == read->Err_0),
        read is Ok ==> (fixture is Ok <==> converted is Ok),
        read is Ok && fixture is Err ==> (fixture matches Err(
            FixtureError::Convert { path: at, .. },
        ) && at@ == path@),
        read is Ok && fixture is Err ==> match (
            fixture->Err_0->failure,
            converted->Err_0,
        ) {
            (ConvertError::Parse(told), ConvertError::Parse(cause)) => told == cause,
            (
                ConvertError::Signers(SignerError::Recover { index: told, error: text }),
                ConvertError::Signers(SignerError::Recover { index, error }),
            ) => told == index && text@ == error@,
            (ConvertError::EncodeInput(told), ConvertError::EncodeInput(cause)) => told@ == cause@,
            _ => false,
        },
        read is Ok && fixture is Ok ==> {
            &&& fixture->Ok_0.name@ == converted->Ok_0.name@
            &&& fixture->Ok_0.input@ == converted->Ok_0.stdin@
            &&& fixture->Ok_0.expected_public_values@ == converted->Ok_0.expected@
            &&& fixture->Ok_0.metadata.block_used_gas == converted->Ok_0.gas_used
        },
        read is Ok && read->Ok_0 is Ok && fixture is Ok ==> {
            &&& fixture->Ok_0.name@ == read->Ok_0->Ok_0.name@
            &&& fixture->Ok_0.metadata.block_used_gas == read->Ok_0->Ok_0.gas_used
            &&& fixture->Ok_0.expected_public_values@.len() == 33
            &&& fixture->Ok_0.expected_public_values@[0] == 32
            &&& fixture->Ok_0.expected_public_values@.skip(1) == keccak256_digest(
                read->Ok_0->Ok_0.header_rlp@,
            )
        },
{
    if read is Ok && read->Ok_0 is Ok && fixture is Ok {
        let raw = read->Ok_0->Ok_0;
        let made = fixture->Ok_0;
        let from = choose|from: ConvertedFixture|
            converts_to(raw, from) && is_made_of(
                made,
                from,
            );
        law_the_expected_output_is_the_hash_of_the_header(raw, from);
    }
    if read is Ok && read->Ok_0 is Ok && fixture is Err {
        let txs = read->Ok_0->Ok_0.transactions@;
        if let ConvertError::Signers(SignerError::Recover { index, .. }) = converted->Err_0 {
            assert(!has_signer(txs[index as int]));
        }
        if let ConvertError::Signers(SignerError::Recover { index, .. }) =
            fixture->Err_0->failure {
            assert(!has_signer(txs[index as int]));
        }
    }
}

/// The messages of a folder's fixtures name the folder or the file.
pub proof fn law_fixture_failures_are_told(failure: FixtureError, message: String)
    requires
        call_ensures(FixtureError::message, (&failure,), message),
    ensures
        failure matches FixtureError::Folder { path, .. } ==> message@
            == "Failed to read input folder: "@ + path@,
        failure matches FixtureError::Read { path, .. } ==> message@ == "Failed to read fixture "@
            + path@,
        failure matches FixtureError::Convert { path, .. } ==> message@
            == "Failed to convert fixture "@ + path@,
{
}

} // verus!
