//! Prebuilt-input path for the external `zisk-eth-client` stateless-validator
//! guest.
//!
//! The guest reads a single record and commits the validated block hash. This
//! module picks the benchmark fixtures of a folder and converts each into the
//! guest's input, so that they run through the normal execute and prove
//! pipeline.

use vstd::multiset::*;
use vstd::prelude::*;
use vstd::relations::*;
use vstd::seq_lib::*;
use vstd::slice::slice_subrange;
use vstd::string::*;
use vstd::utf8::*;

use crate::guest_programs::{BlockMetadata, GenericGuestFixture};
use crate::reth_input::{
    converts_to, convert_fixture_json, refuses, ConvertError, ConvertedFixture, RawFixture,
};
use crate::text::concat2;

verus! {

/// The bytes of `.json`.
pub open spec fn json_suffix() -> Seq<u8> {
    seq![46u8, 106u8, 115u8, 111u8, 110u8]
}

/// Whether a file of this name is a fixture: its extension is `json`, which
/// takes a nonempty stem.
pub open spec fn is_fixture_name(name: Seq<u8>) -> bool {
    name.len() > 5 && name.skip(name.len() - 5) == json_suffix()
}

/// The name of a fixture file without its extension, as text; empty where it is
/// not valid UTF-8.
pub open spec fn stem_text(name: Seq<u8>) -> Seq<char> {
    let stem = name.take(name.len() - 5);
    if valid_utf8(stem) {
        decode_utf8(stem)
    } else {
        Seq::empty()
    }
}

/// Whether `needle` stands in `text` at `at`.
pub open spec fn stands_at(text: Seq<char>, needle: Seq<char>, at: int) -> bool {
    0 <= at <= text.len() - needle.len() && text.subrange(at, at + needle.len()) == needle
}

/// Whether `needle` stands somewhere in `text`.
pub open spec fn contains_text(text: Seq<char>, needle: Seq<char>) -> bool {
    exists|at: int| stands_at(text, needle, at)
}

/// The texts of the needles.
pub open spec fn texts(needles: Seq<String>) -> Seq<Seq<char>> {
    needles.map_values(|needle: String| needle@)
}

/// Whether one of the needles stands in `text`.
pub open spec fn contains_any(text: Seq<char>, needles: Seq<Seq<char>>) -> bool {
    exists|i: int| 0 <= i < needles.len() && contains_text(text, #[trigger] needles[i])
}

/// Whether the filter lets the fixture of this name through.
pub open spec fn passes(filter: Option<Seq<Seq<char>>>, name: Seq<u8>) -> bool {
    match filter {
        Some(needles) => contains_any(stem_text(name), needles),
        None => true,
    }
}

/// The names of a folder's entries that could be read, in the folder's order.
pub open spec fn readable(listing: Seq<Option<Vec<u8>>>) -> Seq<Seq<u8>>
    decreases listing.len(),
{
    if listing.len() == 0 {
        Seq::empty()
    } else {
        match listing.last() {
            Some(name) => readable(listing.drop_last()).push(name@),
            None => readable(listing.drop_last()),
        }
    }
}

/// The names of the fixtures that the filter lets through, in the folder's
/// order.
pub open spec fn selected(
    listing: Seq<Option<Vec<u8>>>,
    filter: Option<Seq<Seq<char>>>,
) -> Seq<Seq<u8>> {
    readable(listing).filter(|name: Seq<u8>| is_fixture_name(name) && passes(filter, name))
}

/// The bytes of the names.
pub open spec fn name_bytes(names: Seq<Vec<u8>>) -> Seq<Seq<u8>> {
    names.map_values(|name: Vec<u8>| name@)
}

/// The lexicographic order of byte strings.
pub open spec fn bytes_le(a: Seq<u8>, b: Seq<u8>) -> bool
    decreases a.len(),
{
    a.len() == 0 || (b.len() > 0 && (a[0] < b[0] || (a[0] == b[0] && bytes_le(
        a.skip(1),
        b.skip(1),
    ))))
}

/// The order of [`bytes_le`], as a relation.
pub open spec fn byte_order() -> spec_fn(Seq<u8>, Seq<u8>) -> bool {
    |a: Seq<u8>, b: Seq<u8>| bytes_le(a, b)
}

/// Calls `core::str::from_utf8`. It is claimed to succeed just on valid UTF-8,
/// and to give the text that the bytes encode.
#[verifier::external_body]
fn utf8_text(bytes: &[u8]) -> (text: Option<String>)
    ensures
        text is Some <==> valid_utf8(bytes@),
        text is Some ==> text->Some_0@ == decode_utf8(bytes@),
{
    core::str::from_utf8(bytes).ok().map(|text| text.to_owned())
}

/// Whether a file of this name is a fixture.
pub fn has_fixture_name(name: &Vec<u8>) -> (fixture: bool)
    ensures
        fixture == is_fixture_name(name@),
{
    let len: usize = name.len();
    if len <= 5 {
        return false;
    }
    let fixture = name[len - 5] == 46 && name[len - 4] == 106 && name[len - 3] == 115 && name[len
        - 2] == 111 && name[len - 1] == 110;
    proof {
        let suffix = name@.skip(len - 5);
        assert(suffix[0] == name@[len - 5] && suffix[1] == name@[len - 4] && suffix[2] == name@[len
            - 3] && suffix[3] == name@[len - 2] && suffix[4] == name@[len - 1]);
        if fixture {
            assert(suffix =~= json_suffix());
        }
    }
    fixture
}

/// Whether `needle` stands somewhere in `text`.
pub fn text_contains(text: &str, needle: &str) -> (contained: bool)
    ensures
        contained == contains_text(text@, needle@),
{
    let text_len: usize = text.unicode_len();
    let needle_len: usize = needle.unicode_len();
    if needle_len > text_len {
        return false;
    }
    let last: usize = text_len - needle_len;
    let mut at: usize = 0;
    loop
        invariant
            text_len == text@.len(),
            needle_len == needle@.len(),
            last == text_len - needle_len,
            at <= last,
            forall|earlier: int| 0 <= earlier < at ==> !stands_at(text@, needle@, earlier),
        decreases last - at,
    {
        let mut matched: usize = 0;
        while matched < needle_len && text.get_char(at + matched) == needle.get_char(matched)
            invariant
                text_len == text@.len(),
                needle_len == needle@.len(),
                last == text_len - needle_len,
                at <= last,
                matched <= needle_len,
                forall|i: int| 0 <= i < matched ==> text@[at + i] == #[trigger] needle@[i],
            decreases needle_len - matched,
        {
            matched = matched + 1;
        }
        let ghost here = text@.subrange(at as int, at + needle_len);
        if matched == needle_len {
            assert(here =~= needle@);
            assert(stands_at(text@, needle@, at as int));
            return true;
        }
        assert(here[matched as int] != needle@[matched as int]);
        if at == last {
            return false;
        }
        at = at + 1;
    }
}

/// The texts of the needles, where there is a filter.
pub open spec fn filter_texts(fixture_filter: Option<&Vec<String>>) -> Option<Seq<Seq<char>>> {
    match fixture_filter {
        Some(needles) => Some(texts(needles@)),
        None => None,
    }
}

/// Whether the filter lets the fixture of this name through.
pub fn filter_passes(fixture_filter: Option<&Vec<String>>, name: &Vec<u8>) -> (passed: bool)
    requires
        is_fixture_name(name@),
    ensures
        passed == passes(filter_texts(fixture_filter), name@),
{
    let needles = match fixture_filter {
        Some(needles) => needles,
        None => return true,
    };
    let stem = slice_subrange(name.as_slice(), 0, name.len() - 5);
    assert(stem@ =~= name@.take(name@.len() - 5));
    let text = match utf8_text(stem) {
        Some(text) => text,
        None => String::new(),
    };
    let mut i: usize = 0;
    while i < needles.len()
        invariant
            i <= needles@.len(),
            text@ == stem_text(name@),
            filter_texts(fixture_filter) == Some(texts(needles@)),
            forall|j: int| 0 <= j < i ==> !contains_text(text@, #[trigger] texts(needles@)[j]),
        decreases needles@.len() - i,
    {
        if text_contains(text.as_str(), needles[i].as_str()) {
            assert(contains_text(text@, texts(needles@)[i as int]));
            return true;
        }
        i = i + 1;
    }
    false
}

/// Whether `a` comes before `b` in the lexicographic order, or is `b`.
fn bytes_in_order(a: &Vec<u8>, b: &Vec<u8>) -> (ordered: bool)
    ensures
        ordered == bytes_le(a@, b@),
{
    let mut i: usize = 0;
    assert(a@.skip(0) =~= a@ && b@.skip(0) =~= b@);
    while i < a.len()
        invariant
            i <= a@.len(),
            i <= b@.len(),
            bytes_le(a@, b@) == bytes_le(a@.skip(i as int), b@.skip(i as int)),
        decreases a@.len() - i,
    {
        if i == b.len() {
            return false;
        }
        if a[i] < b[i] {
            return true;
        }
        if b[i] < a[i] {
            return false;
        }
        assert(a@.skip(i as int).skip(1) =~= a@.skip(i + 1));
        assert(b@.skip(i as int).skip(1) =~= b@.skip(i + 1));
        i = i + 1;
    }
    true
}

proof fn lemma_bytes_reflexive(a: Seq<u8>)
    ensures
        bytes_le(a, a),
    decreases a.len(),
{
    if a.len() > 0 {
        lemma_bytes_reflexive(a.skip(1));
    }
}

proof fn lemma_bytes_antisymmetric(a: Seq<u8>, b: Seq<u8>)
    requires
        bytes_le(a, b),
        bytes_le(b, a),
    ensures
        a == b,
    decreases a.len(),
{
    if a.len() > 0 {
        lemma_bytes_antisymmetric(a.skip(1), b.skip(1));
        assert(a =~= seq![a[0]] + a.skip(1));
        assert(b =~= seq![b[0]] + b.skip(1));
    } else {
        assert(a =~= b);
    }
}

proof fn lemma_bytes_transitive(a: Seq<u8>, b: Seq<u8>, c: Seq<u8>)
    requires
        bytes_le(a, b),
        bytes_le(b, c),
    ensures
        bytes_le(a, c),
    decreases a.len(),
{
    if a.len() > 0 && a[0] == b[0] && b[0] == c[0] {
        lemma_bytes_transitive(a.skip(1), b.skip(1), c.skip(1));
    }
}

proof fn lemma_bytes_total(a: Seq<u8>, b: Seq<u8>)
    ensures
        bytes_le(a, b) || bytes_le(b, a),
    decreases a.len(),
{
    if a.len() > 0 && b.len() > 0 && a[0] == b[0] {
        lemma_bytes_total(a.skip(1), b.skip(1));
    }
}

/// Puts `name` into its place among the sorted names.
fn insert_sorted(names: &mut Vec<Vec<u8>>, name: Vec<u8>)
    requires
        sorted_by(name_bytes(old(names)@), byte_order()),
    ensures
        sorted_by(name_bytes(final(names)@), byte_order()),
        name_bytes(final(names)@).to_multiset() == name_bytes(old(names)@).to_multiset().insert(
            name@,
        ),
{
    let ghost before = name_bytes(names@);
    let ghost leq = byte_order();
    let mut at: usize = names.len();
    while at > 0 && !bytes_in_order(&names[at - 1], &name)
        invariant
            before == name_bytes(names@),
            at <= names@.len(),
            forall|j: int| at <= j < before.len() ==> !bytes_le(#[trigger] before[j], name@),
        decreases at,
    {
        assert(before[at - 1] == names@[at - 1]@);
        at = at - 1;
    }
    proof {
        if at > 0 {
            assert(before[at - 1] == names@[at - 1]@);
        }
        to_multiset_insert(before, at as int, name@);
        assert(name_bytes(names@.insert(at as int, name)) =~= before.insert(at as int, name@));
        let after = before.insert(at as int, name@);
        assert forall|i: int, j: int| 0 <= i < j < after.len() implies #[trigger] leq(
            after[i],
            after[j],
        ) by {
            if i < at && j == at {
                if i < at - 1 {
                    assert(leq(before[i], before[at - 1]));
                    lemma_bytes_transitive(before[i], before[at - 1], name@);
                }
            } else if i == at && j > at {
                lemma_bytes_total(before[j - 1], name@);
            } else if i < at && j < at {
                assert(leq(before[i], before[j]));
            } else if i < at {
                assert(leq(before[i], before[j - 1]));
            } else {
                assert(leq(before[i - 1], before[j - 1]));
            }
        }
    }
    names.insert(at, name);
}

/// Why the fixtures of a folder, or one of them, could not be had.
#[derive(Debug)]
pub enum FixtureError {
    /// The folder could not be read.
    Folder {
        /// The folder
        path: String,
        /// Why
        cause: String,
    },
    /// The fixture's file could not be read.
    Read {
        /// The file
        path: String,
        /// Why
        cause: String,
    },
    /// The fixture could not be converted.
    Convert {
        /// The file
        path: String,
        /// Why
        failure: ConvertError,
    },
}

impl FixtureError {
    /// The text of the failure.
    pub open spec fn text(&self) -> Seq<char> {
        match self {
            FixtureError::Folder { path, .. } => "Failed to read input folder: "@ + path@,
            FixtureError::Read { path, .. } => "Failed to read fixture "@ + path@,
            FixtureError::Convert { path, .. } => "Failed to convert fixture "@ + path@,
        }
    }

    /// The text of the failure.
    pub fn message(&self) -> (message: String)
        ensures
            message@ == self.text(),
    {
        match self {
            FixtureError::Folder { path, .. } => concat2(
                "Failed to read input folder: ",
                path.as_str(),
            ),
            FixtureError::Read { path, .. } => concat2("Failed to read fixture ", path.as_str()),
            FixtureError::Convert { path, .. } => concat2(
                "Failed to convert fixture ",
                path.as_str(),
            ),
        }
    }
}

/// Picks the fixtures of a folder, in the order of their names.
///
/// `listing` is what reading the folder gave: the names of its entries, `None`
/// for an entry that could not be read. Only `*.json` files are fixtures. When
/// `fixture_filter` is set, only files whose stem contains one of the provided
/// substrings are picked.
pub fn zisk_eth_client_input_iter(
    input_folder: &str,
    listing: Result<Vec<Option<Vec<u8>>>, String>,
    fixture_filter: Option<&Vec<String>>,
) -> (picked: Result<Vec<Vec<u8>>, FixtureError>)
    ensures
        match listing {
            Ok(entries) => picked matches Ok(names) && sorted_by(
                name_bytes(names@),
                byte_order(),
            ) && name_bytes(names@).to_multiset() == selected(
                entries@,
                filter_texts(fixture_filter),
            ).to_multiset(),
            Err(error) => picked matches Err(FixtureError::Folder { path, cause }) && path@
                == input_folder@ && cause == error,
        },
{
    let entries = match listing {
        Ok(entries) => entries,
        Err(cause) => return Err(FixtureError::Folder { path: input_folder.to_owned(), cause }),
    };
    let ghost filter = filter_texts(fixture_filter);
    let mut names: Vec<Vec<u8>> = Vec::new();
    let mut i: usize = 0;
    proof {
        reveal(Seq::filter);
        assert(name_bytes(names@) =~= Seq::empty());
        assert(selected(entries@.take(0), filter) =~= Seq::empty());
    }
    while i < entries.len()
        invariant
            i <= entries@.len(),
            filter == filter_texts(fixture_filter),
            sorted_by(name_bytes(names@), byte_order()),
            name_bytes(names@).to_multiset() == selected(
                entries@.take(i as int),
                filter,
            ).to_multiset(),
        decreases entries@.len() - i,
    {
        proof {
            reveal(Seq::filter);
            let next = entries@.take(i + 1);
            assert(next.drop_last() =~= entries@.take(i as int));
            if let Some(name) = entries@[i as int] {
                let before = readable(entries@.take(i as int));
                assert(before.push(name@).drop_last() =~= before);
                to_multiset_build(selected(entries@.take(i as int), filter), name@);
            }
        }
        if let Some(name) = &entries[i] {
            if has_fixture_name(name) && filter_passes(fixture_filter, name) {
                let name = name.clone();
                insert_sorted(&mut names, name);
            }
        }
        i = i + 1;
    }
    assert(entries@.take(i as int) =~= entries@);
    Ok(names)
}

/// Whether `made` is the guest fixture of a converted fixture.
pub open spec fn is_made_of(made: GenericGuestFixture, converted: ConvertedFixture) -> bool {
    &&& made.name == converted.name
    &&& made.input == converted.stdin
    &&& made.expected_public_values == converted.expected
    &&& made.metadata.block_used_gas == converted.gas_used
}

/// The guest fixture of a fixture file. `read` is what reading the file gave:
/// the fixture in it, or why it could not be parsed, or why the file could not
/// be read.
pub fn guest_fixture(path: &str, read: Result<Result<RawFixture, String>, String>) -> (fixture:
    Result<GenericGuestFixture, FixtureError>)
    ensures
        match (read, fixture) {
            (Err(error), _) => fixture matches Err(FixtureError::Read { path: at, cause }) && at@
                == path@ && cause == error,
            (Ok(Err(error)), _) => fixture matches Err(FixtureError::Convert { path: at, failure })
                && at@ == path@ && failure == ConvertError::Parse(error),
            (Ok(Ok(raw)), Ok(made)) => exists|converted: ConvertedFixture|
                converts_to(raw, converted) && is_made_of(made, converted),
            (Ok(Ok(raw)), Err(error)) => error matches FixtureError::Convert { path: at, failure }
                && at@ == path@ && refuses(raw, failure),
        },
{
    let parsed = match read {
        Ok(parsed) => parsed,
        Err(cause) => return Err(FixtureError::Read { path: path.to_owned(), cause }),
    };
    match convert_fixture_json(parsed) {
        Ok(converted) => {
            let ghost from = converted;
            let made = GenericGuestFixture {
                name: converted.name,
                input: converted.stdin,
                expected_public_values: converted.expected,
                metadata: BlockMetadata { block_used_gas: converted.gas_used },
            };
            assert(is_made_of(made, from));
            Ok(made)
        },
        Err(failure) => Err(FixtureError::Convert { path: path.to_owned(), failure }),
    }
}

/// A name is that of a fixture just where its extension, the part behind the
/// last dot that is not the first byte, is `json`.
pub proof fn law_fixtures_have_the_json_extension(name: Seq<u8>)
    ensures
        is_fixture_name(name) <==> exists|dot: int|
            0 < dot < name.len() && #[trigger] name[dot] == 46 && name.skip(dot + 1)
                == json_suffix().skip(1) && !name.skip(dot + 1).contains(46u8),
{
    if is_fixture_name(name) {
        let dot = name.len() - 5;
        assert(name[dot] == name.skip(dot)[0]);
        assert(name.skip(dot + 1) =~= name.skip(dot).skip(1));
    }
    if exists|dot: int|
        0 < dot < name.len() && #[trigger] name[dot] == 46 && name.skip(dot + 1)
            == json_suffix().skip(1) {
        let dot = choose|dot: int|
            0 < dot < name.len() && #[trigger] name[dot] == 46 && name.skip(dot + 1)
                == json_suffix().skip(1);
        assert(name.skip(dot + 1).len() == 4);
        assert(json_suffix() =~= seq![46u8] + json_suffix().skip(1));
        assert(name.skip(dot) =~= seq![46u8] + name.skip(dot + 1));
    }
}

/// Without a filter every fixture passes; an empty filter lets none pass.
pub proof fn law_no_filter_and_the_empty_filter(name: Seq<u8>)
    ensures
        passes(None, name),
        !passes(Some(Seq::empty()), name),
{
}

/// An empty needle lets every fixture pass.
pub proof fn law_the_empty_needle_passes_all(needles: Seq<Seq<char>>, name: Seq<u8>)
    requires
        needles.contains(Seq::empty()),
    ensures
        passes(Some(needles), name),
{
    let i = choose|i: int| 0 <= i < needles.len() && needles[i] == Seq::<char>::empty();
    let text = stem_text(name);
    assert(text.subrange(0, 0) =~= needles[i]);
    assert(stands_at(text, needles[i], 0));
    assert(contains_text(text, needles[i]));
}

/// A fixture that passes a filter passes every filter with these needles and
/// more.
pub proof fn law_more_needles_pass_no_less(
    fewer: Seq<Seq<char>>,
    more: Seq<Seq<char>>,
    name: Seq<u8>,
)
    requires
        forall|needle: Seq<char>| fewer.contains(needle) ==> more.contains(needle),
        passes(Some(fewer), name),
    ensures
        passes(Some(more), name),
{
    let i = choose|i: int|
        0 <= i < fewer.len() && contains_text(stem_text(name), #[trigger] fewer[i]);
    assert(fewer.contains(fewer[i]));
    let j = choose|j: int| 0 <= j < more.len() && more[j] == fewer[i];
    assert(contains_text(stem_text(name), more[j]));
}

proof fn lemma_filter_counts(names: Seq<Seq<u8>>, keep: spec_fn(Seq<u8>) -> bool, name: Seq<u8>)
    ensures
        names.filter(keep).to_multiset().count(name) == if keep(name) {
            names.to_multiset().count(name)
        } else {
            0
        },
    decreases names.len(),
{
    broadcast use group_multiset_axioms;

    reveal(Seq::filter);
    if names.len() == 0 {
        to_multiset_contains(names, name);
        assert(names.filter(keep) =~= names);
    } else {
        let others = names.drop_last();
        lemma_filter_counts(others, keep, name);
        assert(names =~= others.push(names.last()));
        to_multiset_build(others, names.last());
        to_multiset_build(others.filter(keep), names.last());
    }
}

proof fn lemma_byte_order_is_total()
    ensures
        total_ordering(byte_order()),
{
    let leq = byte_order();
    assert forall|a: Seq<u8>| #[trigger] leq(a, a) by {
        lemma_bytes_reflexive(a);
    }
    assert forall|a: Seq<u8>, b: Seq<u8>| #[trigger] leq(a, b) && #[trigger] leq(b, a) implies a
        == b by {
        lemma_bytes_antisymmetric(a, b);
    }
    assert forall|a: Seq<u8>, b: Seq<u8>, c: Seq<u8>| #[trigger]
        leq(a, b) && #[trigger] leq(b, c) implies leq(a, c) by {
        lemma_bytes_transitive(a, b, c);
    }
    assert forall|a: Seq<u8>, b: Seq<u8>| #[trigger] leq(a, b) || #[trigger] leq(b, a) by {
        lemma_bytes_total(a, b);
    }
}

/// Which fixtures are picked, and in which order, does not depend on the order
/// in which the folder lists its entries.
pub proof fn law_listing_order_does_not_matter(
    a: Seq<Option<Vec<u8>>>,
    b: Seq<Option<Vec<u8>>>,
    filter: Option<Seq<Seq<char>>>,
    picked_of_a: Seq<Seq<u8>>,
    picked_of_b: Seq<Seq<u8>>,
)
    requires
        readable(a).to_multiset() == readable(b).to_multiset(),
        sorted_by(picked_of_a, byte_order()),
        sorted_by(picked_of_b, byte_order()),
        picked_of_a.to_multiset() == selected(a, filter).to_multiset(),
        picked_of_b.to_multiset() == selected(b, filter).to_multiset(),
    ensures
        picked_of_a == picked_of_b,
{
    let keep = |name: Seq<u8>| is_fixture_name(name) && passes(filter, name);
    assert forall|name: Seq<u8>| #[trigger] picked_of_a.to_multiset().count(name)
        == picked_of_b.to_multiset().count(name) by {
        lemma_filter_counts(readable(a), keep, name);
        lemma_filter_counts(readable(b), keep, name);
    }
    assert(picked_of_a.to_multiset() =~= picked_of_b.to_multiset());
    lemma_byte_order_is_total();
    lemma_sorted_unique(picked_of_a, picked_of_b, byte_order());
}

/// Every picked name is that of a readable fixture which passes the filter, and
/// every such name is picked.
pub proof fn law_picked_are_the_passing_fixtures(
    listing: Seq<Option<Vec<u8>>>,
    filter: Option<Seq<Seq<char>>>,
    picked: Seq<Seq<u8>>,
    name: Seq<u8>,
)
    requires
        picked.to_multiset() == selected(listing, filter).to_multiset(),
    ensures
        picked.contains(name) <==> listing_holds(listing, name) && is_fixture_name(name) && passes(
            filter,
            name,
        ),
{
    let keep = |name: Seq<u8>| is_fixture_name(name) && passes(filter, name);
    lemma_filter_counts(readable(listing), keep, name);
    to_multiset_contains(picked, name);
    to_multiset_contains(readable(listing), name);
    lemma_readable_holds(listing, name);
}

/// Whether the listing has a readable entry of this name.
pub open spec fn listing_holds(listing: Seq<Option<Vec<u8>>>, name: Seq<u8>) -> bool {
    exists|i: int|
        0 <= i < listing.len() && (#[trigger] listing[i] matches Some(entry) && entry@ == name)
}

proof fn lemma_readable_holds(listing: Seq<Option<Vec<u8>>>, name: Seq<u8>)
    ensures
        readable(listing).contains(name) <==> listing_holds(listing, name),
    decreases listing.len(),
{
    if listing.len() > 0 {
        let others = listing.drop_last();
        lemma_readable_holds(others, name);
        if listing_holds(others, name) {
            let i = choose|i: int|
                0 <= i < others.len() && (#[trigger] others[i] matches Some(entry) && entry@
                    == name);
            assert(listing[i] == others[i]);
        }
        if listing_holds(listing, name) {
            let i = choose|i: int|
                0 <= i < listing.len() && (#[trigger] listing[i] matches Some(entry) && entry@
                    == name);
            if i < others.len() {
                assert(others[i] == listing[i]);
            }
        }
        if let Some(last) = listing.last() {
            let before = readable(others);
            assert(before.push(last@)[before.len() as int] == last@);
            if before.contains(name) {
                let i = choose|i: int| 0 <= i < before.len() && before[i] == name;
                assert(before.push(last@)[i] == name);
            }
            assert(listing[listing.len() - 1] == Some(last));
        }
    }
}

} // verus!
