use benchmark_runner::guest_programs::{BlockMetadata, GenericGuestFixture, GuestFixture};
use benchmark_runner::output::{
    normalize_expected_public_values, output_matched, public_output_matched, same_bytes,
};
use benchmark_runner::zkvm::zkVMKind;

struct Fixture {
    name: &'static str,
    expected_public_values: Vec<u8>,
}

impl Fixture {
    fn new(expected_public_values: Vec<u8>) -> Self {
        Self {
            name: "fixture",
            expected_public_values,
        }
    }
}

impl GuestFixture for Fixture {
    fn name(&self) -> String {
        self.name.to_string()
    }

    fn metadata(&self) -> String {
        "{}".to_string()
    }

    fn input(&self) -> Result<Vec<u8>, String> {
        Ok(Vec::new())
    }

    fn expected_public_values(&self) -> Result<Vec<u8>, String> {
        Ok(self.expected_public_values.clone())
    }
}

struct Speechless;

impl GuestFixture for Speechless {
    fn name(&self) -> String {
        "speechless".to_string()
    }

    fn metadata(&self) -> String {
        "{}".to_string()
    }

    fn input(&self) -> Result<Vec<u8>, String> {
        Ok(Vec::new())
    }

    fn expected_public_values(&self) -> Result<Vec<u8>, String> {
        Err("no expectation".to_string())
    }
}

#[test]
fn public_output_matched_returns_true_for_matching_values() -> Result<(), String> {
    let fixture = Fixture::new(vec![1, 2, 3]);

    assert!(public_output_matched(zkVMKind::SP1, &fixture, &[1, 2, 3],)?);

    Ok(())
}

#[test]
fn public_output_matched_returns_false_for_mismatched_values() -> Result<(), String> {
    let fixture = Fixture::new(vec![1, 2, 3]);

    assert!(!public_output_matched(zkVMKind::SP1, &fixture, &[1, 2, 4],)?);

    Ok(())
}

#[test]
fn public_output_matched_preserves_zkvm_padding_normalization() -> Result<(), String> {
    let fixture = Fixture::new(vec![0xab]);

    let mut thirty_two_byte_public_values = vec![0xab];
    thirty_two_byte_public_values.resize(32, 0);

    assert!(public_output_matched(
        zkVMKind::Airbender,
        &fixture,
        &thirty_two_byte_public_values,
    )?);
    assert!(public_output_matched(
        zkVMKind::OpenVM,
        &fixture,
        &thirty_two_byte_public_values,
    )?);
    assert!(!public_output_matched(
        zkVMKind::SP1,
        &fixture,
        &thirty_two_byte_public_values,
    )?);

    let mut zisk_public_values = vec![0xab];
    zisk_public_values.resize(256, 0);
    assert!(public_output_matched(
        zkVMKind::Zisk,
        &fixture,
        &zisk_public_values,
    )?);

    Ok(())
}

#[test]
fn fixture_without_expectation_fails_the_comparison() {
    assert_eq!(
        public_output_matched(zkVMKind::SP1, &Speechless, &[]),
        Err("no expectation".to_string())
    );
}

#[test]
fn generic_fixture_answers_with_its_parts() {
    let fixture = GenericGuestFixture {
        name: "block-1".to_string(),
        input: vec![1, 2],
        expected_public_values: vec![3],
        metadata: BlockMetadata { block_used_gas: 21_000 },
    };
    assert_eq!(fixture.name(), "block-1");
    assert_eq!(fixture.input(), Ok(vec![1, 2]));
    assert_eq!(fixture.expected_public_values(), Ok(vec![3]));
    assert_eq!(fixture.metadata(), "{\"block_used_gas\":21000}");
    assert_eq!(public_output_matched(zkVMKind::Other, &fixture, &[3]), Ok(true));
}

#[test]
fn padding_goes_up_to_the_width_of_the_zkvm() {
    for (kind, width) in [
        (zkVMKind::Airbender, 32),
        (zkVMKind::OpenVM, 32),
        (zkVMKind::Zisk, 256),
        (zkVMKind::SP1, 2),
        (zkVMKind::Other, 2),
    ] {
        let padded = normalize_expected_public_values(kind, vec![7, 8]);
        assert_eq!(padded.len(), width);
        assert_eq!(padded[..2], [7, 8]);
        assert!(padded[2..].iter().all(|byte| *byte == 0));
    }
}

#[test]
fn padding_twice_is_padding_once() {
    let once = normalize_expected_public_values(zkVMKind::Zisk, vec![9; 33]);
    let twice = normalize_expected_public_values(zkVMKind::Zisk, once.clone());
    assert_eq!(once, twice);
}

#[test]
fn wide_values_are_not_padded() {
    assert_eq!(
        normalize_expected_public_values(zkVMKind::Airbender, vec![5; 32]),
        vec![5; 32]
    );
    assert_eq!(
        normalize_expected_public_values(zkVMKind::OpenVM, vec![5; 40]),
        vec![5; 40]
    );
    assert_eq!(
        normalize_expected_public_values(zkVMKind::Zisk, vec![5; 300]),
        vec![5; 300]
    );
}

#[test]
fn trailing_zeros_are_all_that_padding_confuses() {
    let mut values = vec![1, 2];
    values.resize(32, 0);
    assert!(output_matched(zkVMKind::OpenVM, vec![1, 2], &values));
    assert!(output_matched(zkVMKind::OpenVM, vec![1, 2, 0], &values));
    assert!(!output_matched(zkVMKind::OpenVM, vec![1, 2, 1], &values));
    assert!(!output_matched(zkVMKind::SP1, vec![1, 2, 0], &[1, 2]));
}

#[test]
fn unpadded_values_do_not_match_on_a_padding_zkvm() {
    assert!(!output_matched(zkVMKind::Zisk, vec![1], &[1]));
}

#[test]
fn byte_strings_are_the_same_in_length_and_content() {
    assert!(same_bytes(&[], &[]));
    assert!(same_bytes(&[1, 2], &[1, 2]));
    assert!(!same_bytes(&[1, 2], &[1, 3]));
    assert!(!same_bytes(&[1, 2], &[1]));
}
