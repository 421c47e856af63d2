//! Comparison of the public values that a zkVM run commits with the ones that
//! its fixture expects.

use vstd::prelude::*;

use crate::guest_programs::GuestFixture;
use crate::zkvm::zkVMKind;

verus! {

/// The number of bytes up to which a zkVM of this kind pads its public values.
pub open spec fn public_values_width(kind: zkVMKind) -> nat {
    match kind {
        zkVMKind::Airbender | zkVMKind::OpenVM => 32,
        zkVMKind::Zisk => 256,
        zkVMKind::SP1 | zkVMKind::Other => 0,
    }
}

/// `values` with zero bytes behind it up to `width`. Longer values stay as
/// they are.
pub open spec fn zero_padded(values: Seq<u8>, width: nat) -> Seq<u8> {
    if values.len() < width {
        values + Seq::new((width - values.len()) as nat, |i: int| 0u8)
    } else {
        values
    }
}

/// The public values that a zkVM of this kind commits where a guest writes
/// `values`.
pub open spec fn normalized(kind: zkVMKind, values: Seq<u8>) -> Seq<u8> {
    zero_padded(values, public_values_width(kind))
}

/// Pads the expected public values as the zkVM pads the ones that it commits:
/// to 32 bytes on Airbender and OpenVM, to 256 bytes on Zisk.
pub fn normalize_expected_public_values(
    zkvm_kind: zkVMKind,
    expected_public_values: Vec<u8>,
) -> (values: Vec<u8>)
    ensures
        values@ == normalized(zkvm_kind, expected_public_values@),
{
    let mut values = expected_public_values;
    let width: usize = match zkvm_kind {
        zkVMKind::Airbender | zkVMKind::OpenVM => 32,
        zkVMKind::Zisk => 256,
        zkVMKind::SP1 | zkVMKind::Other => 0,
    };
    if values.len() < width {
        values.resize(width, 0);
    }
    assert(values@ =~= normalized(zkvm_kind, expected_public_values@));
    values
}

/// Whether the two byte strings are equal.
pub fn same_bytes(a: &[u8], b: &[u8]) -> (same: bool)
    ensures
        same == (a@ == b@),
{
    if a.len() != b.len() {
        return false;
    }
    let mut i: usize = 0;
    while i < a.len()
        invariant
            i <= a@.len(),
            a@.len() == b@.len(),
            forall|j: int| 0 <= j < i ==> a@[j] == b@[j],
        decreases a@.len() - i,
    {
        if a[i] != b[i] {
            return false;
        }
        i = i + 1;
    }
    assert(a@ =~= b@);
    true
}

/// Whether `public_values` are what a zkVM of this kind commits where `expected`
/// is expected.
pub fn output_matched(zkvm_kind: zkVMKind, expected: Vec<u8>, public_values: &[u8]) -> (matched:
    bool)
    ensures
        matched == (normalized(zkvm_kind, expected@) == public_values@),
{
    let normalized_values = normalize_expected_public_values(zkvm_kind, expected);
    same_bytes(normalized_values.as_slice(), public_values)
}

/// Whether `public_values` are the ones that the fixture expects of a zkVM of
/// this kind. It fails where the fixture cannot say what it expects, with the
/// fixture's error.
pub fn public_output_matched<F: GuestFixture + ?Sized>(
    zkvm_kind: zkVMKind,
    io: &F,
    public_values: &[u8],
) -> (matched: Result<bool, String>)
    ensures
        exists|answer: Result<Vec<u8>, String>| #[trigger]
            call_ensures(F::expected_public_values, (io,), answer) && match answer {
                Ok(expected) => matched == Ok::<bool, String>(
                    normalized(zkvm_kind, expected@) == public_values@,
                ),
                Err(error) => matched == Err::<bool, String>(error),
            },
{
    let answer = io.expected_public_values();
    let ghost said = answer;
    assert(call_ensures(F::expected_public_values, (io,), said));
    match answer {
        Ok(expected) => Ok(output_matched(zkvm_kind, expected, public_values)),
        Err(error) => Err(error),
    }
}

/// Padding is settled after one pass: normalizing values once more changes
/// nothing.
pub proof fn law_normalization_is_idempotent(kind: zkVMKind, values: Seq<u8>)
    ensures
        normalized(kind, normalized(kind, values)) == normalized(kind, values),
{
}

/// Normalization keeps every expected byte in its place and appends zero bytes
/// only.
pub proof fn law_normalization_only_appends_zeros(kind: zkVMKind, values: Seq<u8>)
    ensures
        normalized(kind, values).len() >= values.len(),
        normalized(kind, values).len() >= public_values_width(kind),
        normalized(kind, values).take(values.len() as int) == values,
        forall|i: int|
            values.len() <= i < normalized(kind, values).len() ==> normalized(kind, values)[i] == 0,
{
    assert(normalized(kind, values).take(values.len() as int) =~= values);
}

/// Normalized values are just as long as the expected ones, or as wide as the
/// zkVM's where these are shorter: 32 bytes on Airbender and OpenVM, 256 bytes on
/// Zisk, and no width on any other zkVM. Nothing is appended to wider values.
pub proof fn law_normalized_length(kind: zkVMKind, values: Seq<u8>)
    ensures
        kind is Airbender || kind is OpenVM ==> normalized(kind, values).len() == if values.len()
            > 32 {
            values.len()
        } else {
            32
        },
        kind is Zisk ==> normalized(kind, values).len() == if values.len() > 256 {
            values.len()
        } else {
            256
        },
        kind is SP1 || kind is Other ==> normalized(kind, values).len() == values.len(),
{
}

/// Committed values are the normalized expected ones just where they have the
/// length of those, begin with every expected byte and are zero behind them.
pub proof fn law_normalized_values_are_expected_bytes_and_zeros(
    kind: zkVMKind,
    expected: Seq<u8>,
    committed: Seq<u8>,
)
    ensures
        ({
            let width: int = if kind is Zisk {
                256
            } else if kind is Airbender || kind is OpenVM {
                32
            } else {
                0
            };
            normalized(kind, expected) == committed <==> {
                &&& committed.len() >= expected.len()
                &&& committed.len() >= width
                &&& committed.len() == expected.len() || committed.len() == width
                &&& forall|i: int| 0 <= i < expected.len() ==> committed[i] == expected[i]
                &&& forall|i: int| expected.len() <= i < committed.len() ==> committed[i] == 0
            }
        }),
{
    let width: int = if kind is Zisk {
        256
    } else if kind is Airbender || kind is OpenVM {
        32
    } else {
        0
    };
    if committed.len() >= expected.len() && committed.len() >= width && (committed.len()
        == expected.len() || committed.len() == width) && (forall|i: int|
        0 <= i < expected.len() ==> committed[i] == expected[i]) && (forall|i: int|
        expected.len() <= i < committed.len() ==> committed[i] == 0) {
        assert(normalized(kind, expected) =~= committed);
    }
}

/// Values that already have the width of the zkVM are compared as they are, and
/// so are all values on a zkVM that does not pad.
pub proof fn law_wide_values_stay(kind: zkVMKind, values: Seq<u8>)
    requires
        values.len() >= public_values_width(kind),
    ensures
        normalized(kind, values) == values,
{
}

/// Two expectations that normalize alike differ in trailing zero bytes only.
pub proof fn law_normalization_confuses_only_trailing_zeros(
    kind: zkVMKind,
    a: Seq<u8>,
    b: Seq<u8>,
)
    requires
        a.len() <= b.len(),
        normalized(kind, a) == normalized(kind, b),
    ensures
        b.take(a.len() as int) == a,
        forall|i: int| a.len() <= i < b.len() ==> b[i] == 0,
{
    law_normalization_only_appends_zeros(kind, a);
    law_normalization_only_appends_zeros(kind, b);
    assert forall|i: int| 0 <= i < b.len() implies b[i] == normalized(kind, a)[i] by {
        assert(b[i] == normalized(kind, b).take(b.len() as int)[i]);
    }
    assert forall|i: int| 0 <= i < a.len() implies a[i] == b[i] by {
        assert(a[i] == normalized(kind, a).take(a.len() as int)[i]);
    }
    assert(b.take(a.len() as int) =~= a);
}

} // verus!
