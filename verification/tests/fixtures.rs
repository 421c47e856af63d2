use alloy_genesis::serde_bincode_compat::ChainConfig;
use alloy_rpc_types_debug::ExecutionWitness;
use benchmark_runner::output::normalize_expected_public_values;
use benchmark_runner::reth_input::{
    accept_key, assemble_fixture, convert_fixture_json, expected_output, guest_stdin,
    recover_signer, recover_signers, ConvertError, RawFixture, SignedTransaction, SignerError,
    UncompressedPublicKey, Witness,
};
use benchmark_runner::text::decimal;
use benchmark_runner::zisk_eth_client::{
    filter_passes, guest_fixture, has_fixture_name, text_contains, zisk_eth_client_input_iter,
    FixtureError,
};
use benchmark_runner::zkvm::zkVMKind;

fn bytes(text: &str) -> Vec<u8> {
    hex::decode(text).unwrap()
}

fn word(text: &str) -> [u8; 32] {
    bytes(text).try_into().unwrap()
}

const BLOCK_HASH: &str = "67eeb198ec069786b774927bff77c33970e900efa7cb432d2fda2d57a8e1a2dd";

// The header of the first block of mainnet, but for its gas of 21000.
fn header_rlp() -> Vec<u8> {
    let mut rlp = bytes(
        "f90216a00000000000000000000000000000000000000000000000000000000000000000\
         a01dcc4de8dec75d7aab85b567b6ccd41ad312451b948a7413f0a142fd40d49347\
         940000000000000000000000000000000000000000\
         a0d7f8974fb5ac78d9ac099b9ad5018bedc2ce0a72dad1827a1709da30580f0544\
         a056e81f171bcc55a6ff8345e692c0f86e5b48e01b996cadc001622fb5e363b421\
         a056e81f171bcc55a6ff8345e692c0f86e5b48e01b996cadc001622fb5e363b421b90100",
    );
    rlp.extend([0; 256]);
    rlp.extend(bytes(
        "8504000000008082138882520880\
         a011bbe8db4e347b4e8c937c1c8370e4b5ed33adb3db69cbdb7a38e1e50b1b82fa\
         a00000000000000000000000000000000000000000000000000000000000000000\
         880000000000000042",
    ));
    rlp
}

const SIGNER: &str = "044bc2a31265153f07e70e0bab08724e6b85e217f8cd628ceb62974247bb493382\
                      ce28cab79ad7119ee1ad3ebcdb98a16805211530ecc6cfefa1b88e6dff99232a";

// A legacy transfer on chain 1, signed with the key of 32 bytes 0x46.
fn signed() -> SignedTransaction {
    SignedTransaction {
        r: word("28ef61340bd939bc2195fe537567866003e1a15d3c71ff63e1590620aa636276"),
        s: word("67cbe9d8997f761aecb703304b3800ccf555c9f3dc64214b297fb1966a3b6d83"),
        odd_y_parity: false,
        signing_payload: bytes(
            "ec098504a817c800825208943535353535353535353535353535353535353535\
             880de0b6b3a764000080018080",
        ),
    }
}

fn unsigned() -> SignedTransaction {
    SignedTransaction {
        r: [0; 32],
        s: [0; 32],
        odd_y_parity: false,
        signing_payload: Vec::new(),
    }
}

const CHAIN_CONFIG: &str = "{\"chain_id\":7,\"homestead_block\":300}";

// The chain id, the homestead block behind its mark and its width, then a zero for
// each of the 32 fields that are not set.
fn chain_config() -> Vec<u8> {
    let mut bytes = vec![7, 1, 251, 44, 1];
    bytes.extend([0; 32]);
    bytes
}

fn witness() -> Witness {
    Witness {
        state: vec![vec![7, 7], Vec::new()],
        codes: vec![vec![8]],
        keys: Vec::new(),
        headers: vec![vec![9]],
    }
}

// The lists of the witness, each behind its number of items.
const WITNESS: [u8; 12] = [2, 2, 7, 7, 0, 1, 1, 8, 0, 1, 1, 9];

fn no_witness() -> Witness {
    Witness {
        state: Vec::new(),
        codes: Vec::new(),
        keys: Vec::new(),
        headers: Vec::new(),
    }
}

fn raw(transactions: Vec<SignedTransaction>) -> RawFixture {
    RawFixture {
        name: "block-1".to_string(),
        header_rlp: header_rlp(),
        gas_used: 21_000,
        transactions,
        block: Ok(vec![1, 2]),
        chain_config: CHAIN_CONFIG.to_string(),
        witness: witness(),
    }
}

#[test]
fn signers_are_recovered() {
    let key = recover_signer(0, &signed()).unwrap();
    assert_eq!(key.bytes, bytes(SIGNER));
    assert_eq!((key.bytes.len(), key.bytes[0]), (65, 4));
    let keys = recover_signers(&vec![signed(), signed()]).unwrap();
    assert_eq!(keys.len(), 2);
    assert_eq!(keys[1].bytes, bytes(SIGNER));
}

#[test]
fn the_other_parity_gives_another_signer() {
    let mut transaction = signed();
    transaction.odd_y_parity = true;
    assert_ne!(recover_signer(0, &transaction).unwrap().bytes, bytes(SIGNER));
}

#[test]
fn the_first_transaction_without_a_signer_is_told() {
    let failure = recover_signers(&vec![signed(), unsigned(), unsigned()]).err().unwrap();
    assert!(matches!(&failure, SignerError::Recover { index: 1, .. }));
    assert_eq!(failure.message(), "failed to recover signature for tx #1");
}

#[test]
fn keys_of_another_length_are_refused() {
    assert_eq!(accept_key(0, Ok(vec![4; 65])).unwrap().bytes, vec![4; 65]);
    let failure = accept_key(12, Ok(vec![4; 33])).err().unwrap();
    assert!(matches!(&failure, SignerError::Encode { index: 12, len: 33 }));
    assert_eq!(
        failure.message(),
        "failed to encode public key for tx #12: could not convert slice to array"
    );
    let failure = accept_key(3, Err("signature error".to_string())).err().unwrap();
    assert!(matches!(
        &failure,
        SignerError::Recover { index: 3, error } if error == "signature error"
    ));
}

#[test]
fn the_expected_output_is_the_hash_behind_its_length() {
    let output = expected_output(&[7; 32]).unwrap();
    assert_eq!(output.len(), 33);
    assert_eq!(output[0], 32);
    assert_eq!(output[1..], [7; 32]);
}

#[test]
fn keys_are_counted_and_framed_between_configuration_and_witness() {
    let keys = vec![
        UncompressedPublicKey { bytes: vec![8; 65] },
        UncompressedPublicKey { bytes: vec![9; 65] },
    ];
    let mut expected = vec![1, 2, 3, 2, 65];
    expected.extend([8; 65]);
    expected.push(65);
    expected.extend([9; 65]);
    expected.extend(WITNESS);
    assert_eq!(guest_stdin(&vec![1, 2], &vec![3], &keys, &witness()), Ok(expected));
    assert_eq!(
        guest_stdin(&vec![1, 2], &vec![3], &Vec::new(), &no_witness()),
        Ok(vec![1, 2, 3, 0, 0, 0, 0, 0])
    );
}

#[test]
fn keys_are_read_back() {
    let keys: Vec<UncompressedPublicKey> = (0..=255u8)
        .map(|byte| UncompressedPublicKey { bytes: vec![byte; 65] })
        .collect();
    let stdin = guest_stdin(&vec![1, 2], &vec![3], &keys, &witness()).unwrap();
    let (list, used): (Vec<Vec<u8>>, usize) =
        bincode::serde::decode_from_slice(&stdin[3..], bincode::config::standard()).unwrap();
    assert_eq!(list.len(), 256);
    assert!(list.iter().zip(&keys).all(|(read, key)| *read == key.bytes));
    let (read, left): (ExecutionWitness, usize) =
        bincode::serde::decode_from_slice(&stdin[3 + used..], bincode::config::standard()).unwrap();
    assert_eq!(3 + used + left, stdin.len());
    assert!(read.state.iter().eq(&witness().state));
    assert!(read.codes.iter().eq(&witness().codes));
    assert!(read.keys.is_empty());
    assert!(read.headers.iter().eq(&witness().headers));
}

#[test]
fn different_hashes_are_expected_to_give_different_values() {
    let a = normalize_expected_public_values(zkVMKind::Zisk, expected_output(&[0; 32]).unwrap());
    let mut other = [0; 32];
    other[31] = 1;
    let b = normalize_expected_public_values(zkVMKind::Zisk, expected_output(&other).unwrap());
    assert_eq!(a.len(), 256);
    assert_ne!(a, b);
}

#[test]
fn long_key_lists_have_wide_counts() {
    let keys: Vec<UncompressedPublicKey> = (0..300)
        .map(|_| UncompressedPublicKey { bytes: vec![8; 65] })
        .collect();
    let stdin = guest_stdin(&vec![1, 2], &vec![3], &keys, &witness()).unwrap();
    assert_eq!(stdin[3..6], [251, 44, 1]);
    assert_eq!(stdin.len(), 3 + 3 + 300 * 66 + 12);
}

#[test]
fn the_record_is_what_bincode_writes_of_the_whole() {
    let keys = vec![
        UncompressedPublicKey { bytes: vec![8; 65] },
        UncompressedPublicKey { bytes: vec![9; 65] },
    ];
    let standard = bincode::config::standard();
    let block = ("block".to_string(), 7u64);
    let list: Vec<Vec<u8>> = keys.iter().map(|key| key.bytes.clone()).collect();
    let to_bytes = |items: Vec<Vec<u8>>| items.into_iter().map(|item| item.into()).collect();
    let outside = ExecutionWitness {
        state: to_bytes(witness().state),
        codes: to_bytes(witness().codes),
        keys: to_bytes(witness().keys),
        headers: to_bytes(witness().headers),
    };
    let block_bytes = bincode::serde::encode_to_vec(&block, standard).unwrap();
    let config_bytes = bincode::serde::encode_to_vec(true, standard).unwrap();
    let whole = bincode::serde::encode_to_vec(((block, true, list), (outside,)), standard).unwrap();
    assert_eq!(guest_stdin(&block_bytes, &config_bytes, &keys, &witness()), Ok(whole));
}

#[test]
fn a_fixture_is_converted() {
    let converted = convert_fixture_json(Ok(raw(vec![signed()]))).unwrap();
    assert_eq!(converted.name, "block-1");
    assert_eq!(converted.gas_used, 21_000);
    let mut expected = vec![32];
    expected.extend(bytes(BLOCK_HASH));
    assert_eq!(converted.expected, expected);
    let mut stdin = vec![1, 2];
    stdin.extend(chain_config());
    stdin.extend([1, 65]);
    stdin.extend(bytes(SIGNER));
    stdin.extend(WITNESS);
    assert_eq!(converted.stdin, stdin);
}

#[test]
fn fixtures_that_cannot_be_converted_are_told() {
    let failure = convert_fixture_json(Err("no json".to_string())).err().unwrap();
    assert!(matches!(&failure, ConvertError::Parse(error) if error == "no json"));
    assert_eq!(failure.message(), "Failed to parse stateless validation fixture");

    let failure = convert_fixture_json(Ok(raw(vec![unsigned()]))).err().unwrap();
    assert!(matches!(
        &failure,
        ConvertError::Signers(SignerError::Recover { index: 0, .. })
    ));
    assert_eq!(
        failure.message(),
        "Failed to recover transaction signer public keys"
    );

    let mut fixture = raw(vec![signed()]);
    fixture.chain_config = "{}".to_string();
    let failure = convert_fixture_json(Ok(fixture)).err().unwrap();
    assert!(matches!(
        &failure,
        ConvertError::EncodeInput(error) if error.starts_with("missing field `chain_id`")
    ));

    let mut fixture = raw(vec![signed()]);
    fixture.block = Err("too long".to_string());
    fixture.chain_config = "{}".to_string();
    let failure = convert_fixture_json(Ok(fixture)).err().unwrap();
    assert!(matches!(&failure, ConvertError::EncodeInput(error) if error == "too long"));
    assert_eq!(
        failure.message(),
        "Failed to serialize (RethInputPublic, RethInputWitness)"
    );

    assert_eq!(
        ConvertError::EncodeHash("e".to_string()).message(),
        "Failed to encode expected block hash"
    );
}

#[test]
fn signers_come_before_encodings() {
    let mut fixture = raw(vec![unsigned()]);
    fixture.block = Err("too long".to_string());
    assert!(matches!(
        convert_fixture_json(Ok(fixture)),
        Err(ConvertError::Signers(_))
    ));
}

#[test]
fn the_header_is_hashed_as_it_stands() {
    let mut fixture = raw(Vec::new());
    fixture.header_rlp = Vec::new();
    let converted = convert_fixture_json(Ok(fixture)).unwrap();
    assert_eq!(
        converted.expected[1..],
        bytes("c5d2460186f7233c927e7db2dcc703c0e500b653ca82273b7bfad8045d85a470")
    );
    assert_eq!(converted.gas_used, 21_000);
}

#[test]
fn the_chain_configuration_is_read_back() {
    let converted = convert_fixture_json(Ok(raw(Vec::new()))).unwrap();
    let (config, used): (ChainConfig, usize) =
        bincode::serde::decode_from_slice(&converted.stdin[2..], bincode::config::standard())
            .unwrap();
    assert_eq!(used, chain_config().len());
    let config = alloy_genesis::ChainConfig::from(config);
    assert_eq!(config.chain_id, 7);
    assert_eq!(config.homestead_block, Some(300));
    assert_eq!(config.london_block, None);
}

#[test]
fn a_fixture_is_put_together_from_its_parts() {
    let converted = assemble_fixture(
        "b".to_string(),
        5,
        &[1; 32],
        Ok(vec![UncompressedPublicKey { bytes: vec![8; 65] }]),
        Ok(vec![1, 2]),
        Ok(vec![3]),
        &witness(),
    )
    .unwrap();
    assert_eq!(converted.name, "b");
    assert_eq!(converted.gas_used, 5);
    assert_eq!(converted.expected[..2], [32, 1]);
    assert_eq!(converted.stdin[..5], [1, 2, 3, 1, 65]);
}

#[test]
fn indices_are_written_in_decimal() {
    assert_eq!(decimal(0), "0");
    assert_eq!(decimal(9), "9");
    assert_eq!(decimal(10), "10");
    assert_eq!(decimal(1_234_567_890), "1234567890");
    assert_eq!(decimal(u64::MAX), u64::MAX.to_string());
}

fn names(listing: &[&str]) -> Result<Vec<Option<Vec<u8>>>, String> {
    Ok(listing.iter().map(|name| Some(name.as_bytes().to_vec())).collect())
}

fn picked(listing: &[&str], filter: Option<&[&str]>) -> Vec<String> {
    let needles: Option<Vec<String>> =
        filter.map(|needles| needles.iter().map(|needle| needle.to_string()).collect());
    zisk_eth_client_input_iter("in", names(listing), needles.as_ref())
        .unwrap()
        .into_iter()
        .map(|name| String::from_utf8(name).unwrap())
        .collect()
}

#[test]
fn fixtures_are_picked_in_order() {
    assert_eq!(
        picked(&["b.json", "notes.txt", "a.json", "ab.json", "B.json"], None),
        ["B.json", "a.json", "ab.json", "b.json"]
    );
}

#[test]
fn the_order_of_the_listing_does_not_matter() {
    assert_eq!(
        picked(&["c.json", "a.json", "b.json"], None),
        picked(&["a.json", "b.json", "c.json"], None)
    );
}

#[test]
fn only_the_json_extension_makes_a_fixture() {
    for (name, fixture) in [
        ("a.json", true),
        ("a.b.json", true),
        ("..json", true),
        (".json", false),
        ("json", false),
        ("ajson", false),
        ("a.json.gz", false),
        ("a.JSON", false),
        ("a.jsonl", false),
        ("", false),
    ] {
        assert_eq!(has_fixture_name(&name.as_bytes().to_vec()), fixture, "{}", name);
        let by_std = std::path::Path::new(name).extension().is_some_and(|ext| ext == "json");
        assert_eq!(by_std, fixture, "{}", name);
    }
}

#[test]
fn filters_look_into_the_stem() {
    let listing = ["alpha.json", "beta.json", "gamma.json"];
    assert_eq!(picked(&listing, Some(&["alp", "mm"])), ["alpha.json", "gamma.json"]);
    assert_eq!(picked(&listing, Some(&["json"])), Vec::<String>::new());
    assert_eq!(picked(&listing, Some(&[])), Vec::<String>::new());
    assert_eq!(picked(&listing, Some(&["zzz", ""])).len(), 3);
    assert_eq!(picked(&listing, Some(&["ta"])), ["beta.json"]);
    assert_eq!(picked(&listing, Some(&["ta", "ga"])), ["beta.json", "gamma.json"]);
}

#[test]
fn filters_see_no_stem_that_is_not_text() {
    let strange = vec![0xff, b'a', b'.', b'j', b's', b'o', b'n'];
    let needle = vec!["a".to_string()];
    assert!(filter_passes(None, &strange));
    assert!(!filter_passes(Some(&needle), &strange));
    assert!(filter_passes(Some(&vec![String::new()]), &strange));
    let umlaut = "ä.json".as_bytes().to_vec();
    assert!(filter_passes(Some(&vec!["ä".to_string()]), &umlaut));
}

#[test]
fn unreadable_entries_are_passed_over() {
    let listing = vec![None, Some(b"a.json".to_vec()), None];
    let picked = zisk_eth_client_input_iter("in", Ok(listing), None).unwrap();
    assert_eq!(picked, vec![b"a.json".to_vec()]);
}

#[test]
fn an_unreadable_folder_is_told() {
    let failure = zisk_eth_client_input_iter("in", Err("denied".to_string()), None)
        .err()
        .unwrap();
    assert!(matches!(&failure, FixtureError::Folder { cause, .. } if cause == "denied"));
    assert_eq!(failure.message(), "Failed to read input folder: in");
}

#[test]
fn substrings_are_found() {
    for (text, needle) in [
        ("", ""),
        ("abc", ""),
        ("", "a"),
        ("abc", "abc"),
        ("abc", "bc"),
        ("abc", "ac"),
        ("aab", "ab"),
        ("äöü", "ö"),
        ("ab", "abc"),
    ] {
        assert_eq!(text_contains(text, needle), text.contains(needle), "{} {}", text, needle);
    }
}

#[test]
fn a_fixture_file_becomes_a_guest_fixture() {
    let fixture = guest_fixture("in/block-1.json", Ok(Ok(raw(vec![signed()])))).unwrap();
    assert_eq!(fixture.name, "block-1");
    assert_eq!(fixture.metadata.block_used_gas, 21_000);
    assert_eq!(fixture.input[..5], [1, 2, 7, 1, 251]);
    assert_eq!(fixture.expected_public_values.len(), 33);
}

#[test]
fn fixture_files_that_fail_are_told() {
    let failure = guest_fixture("in/a.json", Err("gone".to_string())).err().unwrap();
    assert!(matches!(&failure, FixtureError::Read { cause, .. } if cause == "gone"));
    assert_eq!(failure.message(), "Failed to read fixture in/a.json");

    let failure = guest_fixture("in/a.json", Ok(Err("no json".to_string()))).err().unwrap();
    assert!(matches!(
        &failure,
        FixtureError::Convert { failure: ConvertError::Parse(_), .. }
    ));
    assert_eq!(failure.message(), "Failed to convert fixture in/a.json");
}
