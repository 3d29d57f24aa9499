//! The mathematical model of the selector tally and of its report.
//!
//! A call is identified by its fingerprint: the four selector bytes and the
//! number of calldata bytes after them. A histogram counts calls by
//! fingerprint. A report holds the same counts under textual keys of the
//! form `0x<selector in hex>-<calldata size in decimal>`.

use vstd::prelude::*;
use crate::tracing::text::{decimal, hex_lower, lemma_decimal_injective, lemma_hex_lower_injective};

verus! {

/// Selector bytes and calldata size of a call.
pub type Fingerprint = (Seq<u8>, nat);

/// Number of calls seen, by fingerprint.
pub type Histogram = Map<Fingerprint, nat>;

/// Number of calls seen, by textual key.
pub type Report = Map<Seq<char>, nat>;

/// The fingerprint of a call with the given input, if the input is long
/// enough to hold a selector.
pub open spec fn fingerprint(input: Seq<u8>) -> Option<Fingerprint> {
    if input.len() >= 4 {
        Some((input.subrange(0, 4), (input.len() - 4) as nat))
    } else {
        None
    }
}

/// The count that a map holds for a key, 0 where it holds none.
pub open spec fn count_of<K>(counts: Map<K, nat>, key: K) -> nat {
    if counts.dom().contains(key) {
        counts[key]
    } else {
        0
    }
}

/// The histogram after one more call: the count of the call's fingerprint
/// is one higher, and a call without a fingerprint changes nothing.
pub open spec fn record(tally: Histogram, input: Seq<u8>) -> Histogram {
    match fingerprint(input) {
        Some(key) => tally.insert(key, count_of(tally, key) + 1),
        None => tally,
    }
}

/// The histogram of a sequence of calls, starting from the empty one.
pub open spec fn tally_of(inputs: Seq<Seq<u8>>) -> Histogram
    decreases inputs.len(),
{
    if inputs.len() == 0 {
        Map::empty()
    } else {
        record(tally_of(inputs.drop_last()), inputs.last())
    }
}

/// How many of the inputs are long enough to hold a selector.
pub open spec fn qualifying(inputs: Seq<Seq<u8>>) -> nat
    decreases inputs.len(),
{
    if inputs.len() == 0 {
        0
    } else {
        qualifying(inputs.drop_last()) + if inputs.last().len() >= 4 {
            1nat
        } else {
            0nat
        }
    }
}

/// Every selector of the histogram has four bytes.
pub open spec fn four_byte_selectors(tally: Histogram) -> bool {
    forall|key: Fingerprint| #[trigger] tally.dom().contains(key) ==> key.0.len() == 4
}

/// What every histogram built by recording calls satisfies: finitely many
/// entries, each under a selector of four bytes, each counting at least one
/// call.
pub open spec fn valid_histogram(tally: Histogram) -> bool {
    &&& tally.dom().finite()
    &&& four_byte_selectors(tally)
    &&& forall|key: Fingerprint| #[trigger] tally.dom().contains(key) ==> tally[key] >= 1
}

/// The textual key of a fingerprint.
pub open spec fn key_text(key: Fingerprint) -> Seq<char> {
    seq!['0', 'x'] + hex_lower(key.0) + seq!['-'] + decimal(key.1)
}

/// The fingerprint stands in the histogram and has this textual key.
pub open spec fn is_key_of(tally: Histogram, text: Seq<char>, key: Fingerprint) -> bool {
    tally.dom().contains(key) && key_text(key) == text
}

/// The report of a histogram: each count, under the textual key of its
/// fingerprint.
pub open spec fn report_of(tally: Histogram) -> Report {
    Map::new(
        |text: Seq<char>| exists|key: Fingerprint| is_key_of(tally, text, key),
        |text: Seq<char>| tally[choose|key: Fingerprint| is_key_of(tally, text, key)],
    )
}

/// The sum of all counts of a finite map.
pub open spec fn total<K>(counts: Map<K, nat>) -> nat
    decreases counts.dom().len(),
    when counts.dom().finite()
    via total_decreases::<K>
{
    if counts.dom().len() == 0 {
        0
    } else {
        let key = counts.dom().choose();
        counts[key] + total(counts.remove(key))
    }
}

#[via_fn]
proof fn total_decreases<K>(counts: Map<K, nat>) {
    if counts.dom().len() != 0 {
        let key = counts.dom().choose();
        assert(counts.dom().contains(key));
        assert(counts.remove(key).dom() =~= counts.dom().remove(key));
    }
}

/// The total splits at any key of the map.
pub proof fn lemma_total_remove<K>(counts: Map<K, nat>, key: K)
    requires
        counts.dom().finite(),
        counts.dom().contains(key),
    ensures
        total(counts) == counts[key] + total(counts.remove(key)),
    decreases counts.dom().len(),
{
    let chosen = counts.dom().choose();
    assert(counts.dom().len() != 0) by {
        if counts.dom().len() == 0 {
            assert(counts.dom() =~= Set::empty());
        }
    }
    assert(counts.dom().contains(chosen));
    if chosen != key {
        let without_chosen = counts.remove(chosen);
        let without_key = counts.remove(key);
        assert(without_chosen.dom() =~= counts.dom().remove(chosen));
        assert(without_key.dom() =~= counts.dom().remove(key));
        lemma_total_remove(without_chosen, key);
        lemma_total_remove(without_key, chosen);
        assert(without_chosen.remove(key) =~= without_key.remove(chosen));
    }
}

/// The total of the empty map is 0.
pub proof fn lemma_total_empty<K>()
    ensures
        total(Map::<K, nat>::empty()) == 0,
{
    assert(Map::<K, nat>::empty().dom() =~= Set::empty());
}

/// Setting one count changes the total by the difference.
pub proof fn lemma_total_insert<K>(counts: Map<K, nat>, key: K, count: nat)
    requires
        counts.dom().finite(),
    ensures
        total(counts.insert(key, count)) + count_of(counts, key) == total(counts) + count,
{
    let after = counts.insert(key, count);
    assert(after.dom() =~= counts.dom().insert(key));
    lemma_total_remove(after, key);
    if counts.dom().contains(key) {
        lemma_total_remove(counts, key);
        assert(after.remove(key) =~= counts.remove(key));
    } else {
        assert(after.remove(key) =~= counts);
    }
}

/// Recording a call keeps a histogram valid, lowers no count, and raises
/// the total by one exactly when the call has a fingerprint.
pub proof fn lemma_record(tally: Histogram, input: Seq<u8>)
    requires
        valid_histogram(tally),
    ensures
        valid_histogram(record(tally, input)),
        forall|key: Fingerprint|
            count_of(tally, key) <= #[trigger] count_of(record(tally, input), key),
        total(record(tally, input)) == total(tally) + if input.len() >= 4 {
            1nat
        } else {
            0nat
        },
{
    if input.len() >= 4 {
        let key = fingerprint(input).unwrap();
        lemma_total_insert(tally, key, count_of(tally, key) + 1);
        assert(record(tally, input).dom() =~= tally.dom().insert(key));
    }
}

/// The histogram of any sequence of calls is valid, and its total is the
/// number of calls that have a fingerprint.
pub proof fn lemma_tally_of(inputs: Seq<Seq<u8>>)
    ensures
        valid_histogram(tally_of(inputs)),
        total(tally_of(inputs)) == qualifying(inputs),
    decreases inputs.len(),
{
    if inputs.len() == 0 {
        lemma_total_empty::<Fingerprint>();
    } else {
        lemma_tally_of(inputs.drop_last());
        lemma_record(tally_of(inputs.drop_last()), inputs.last());
    }
}

/// Two fingerprints with four-byte selectors and the same textual key are
/// the same fingerprint.
pub proof fn lemma_key_text_injective(a: Fingerprint, b: Fingerprint)
    requires
        a.0.len() == 4,
        b.0.len() == 4,
        key_text(a) == key_text(b),
    ensures
        a == b,
{
    let ta = key_text(a);
    let tb = key_text(b);
    assert(hex_lower(a.0).len() == 8);
    assert(hex_lower(b.0).len() == 8);
    assert(ta.subrange(2, 10) =~= hex_lower(a.0));
    assert(tb.subrange(2, 10) =~= hex_lower(b.0));
    lemma_hex_lower_injective(a.0, b.0);
    assert(ta.subrange(11, ta.len() as int) =~= decimal(a.1));
    assert(tb.subrange(11, tb.len() as int) =~= decimal(b.1));
    lemma_decimal_injective(a.1, b.1);
}

/// The report holds each count of a valid histogram under the textual key
/// of its fingerprint.
pub proof fn lemma_report_entry(tally: Histogram, key: Fingerprint)
    requires
        four_byte_selectors(tally),
        tally.dom().contains(key),
    ensures
        report_of(tally).dom().contains(key_text(key)),
        report_of(tally)[key_text(key)] == tally[key],
{
    let text = key_text(key);
    assert(is_key_of(tally, text, key));
    let chosen = choose|k: Fingerprint| is_key_of(tally, text, k);
    lemma_key_text_injective(chosen, key);
}

/// Every key of the report is the textual key of a fingerprint of the
/// histogram.
pub proof fn lemma_report_key(tally: Histogram, text: Seq<char>) -> (key: Fingerprint)
    requires
        report_of(tally).dom().contains(text),
    ensures
        tally.dom().contains(key),
        key_text(key) == text,
{
    choose|k: Fingerprint| is_key_of(tally, text, k)
}

/// Setting a count in a histogram sets the count under the textual key in
/// the report and leaves the rest of the report as it was.
pub proof fn lemma_report_insert(tally: Histogram, key: Fingerprint, count: nat)
    requires
        four_byte_selectors(tally),
        key.0.len() == 4,
    ensures
        report_of(tally.insert(key, count)) == report_of(tally).insert(key_text(key), count),
{
    let after = tally.insert(key, count);
    let left = report_of(after);
    let right = report_of(tally).insert(key_text(key), count);
    assert forall|text: Seq<char>| #[trigger] left.dom().contains(text) implies {
        &&& right.dom().contains(text)
        &&& left[text] == right[text]
    } by {
        let k = lemma_report_key(after, text);
        lemma_report_entry(after, k);
        if text != key_text(key) {
            assert(is_key_of(tally, text, k));
            lemma_report_entry(tally, k);
        } else {
            lemma_key_text_injective(k, key);
        }
    }
    assert forall|text: Seq<char>| #[trigger]
        right.dom().contains(text) implies left.dom().contains(text) by {
        if text == key_text(key) {
            assert(is_key_of(after, text, key));
        } else {
            let k = lemma_report_key(tally, text);
            assert(is_key_of(after, text, k));
        }
    }
    assert(left.dom() =~= right.dom());
    assert(left =~= right);
}

/// Taking a fingerprint out of a valid histogram takes its textual key out
/// of the report and leaves the rest of the report as it was.
proof fn lemma_report_remove(tally: Histogram, key: Fingerprint)
    requires
        valid_histogram(tally),
        tally.dom().contains(key),
    ensures
        report_of(tally.remove(key)) == report_of(tally).remove(key_text(key)),
{
    let rest = tally.remove(key);
    let left = report_of(rest);
    let right = report_of(tally).remove(key_text(key));
    assert forall|text: Seq<char>| #[trigger] left.dom().contains(text) implies {
        &&& right.dom().contains(text)
        &&& left[text] == right[text]
    } by {
        let k = lemma_report_key(rest, text);
        assert(is_key_of(tally, text, k));
        if text == key_text(key) {
            lemma_key_text_injective(k, key);
        }
        lemma_report_entry(rest, k);
        lemma_report_entry(tally, k);
    }
    assert forall|text: Seq<char>| #[trigger]
        right.dom().contains(text) implies left.dom().contains(text) by {
        let k = lemma_report_key(tally, text);
        assert(is_key_of(rest, text, k));
    }
    assert(left.dom() =~= right.dom());
    assert(left =~= right);
}

/// The report of a valid histogram is finite and has the histogram's total.
pub proof fn lemma_report_total(tally: Histogram)
    requires
        valid_histogram(tally),
    ensures
        report_of(tally).dom().finite(),
        total(report_of(tally)) == total(tally),
    decreases tally.dom().len(),
{
    if tally.dom().len() == 0 {
        assert(tally.dom() =~= Set::empty());
        assert forall|text: Seq<char>| !report_of(tally).dom().contains(text) by {
            if report_of(tally).dom().contains(text) {
                let k = lemma_report_key(tally, text);
            }
        }
        assert(report_of(tally).dom() =~= Set::empty());
    } else {
        let key = tally.dom().choose();
        assert(tally.dom().contains(key));
        let rest = tally.remove(key);
        assert(rest.dom() =~= tally.dom().remove(key));
        lemma_report_total(rest);
        lemma_report_remove(tally, key);
        lemma_report_entry(tally, key);
        let report = report_of(tally);
        assert(report.dom() =~= report.remove(key_text(key)).dom().insert(key_text(key)));
        lemma_total_remove(report, key_text(key));
        lemma_total_remove(tally, key);
    }
}

/// The counts of the report of any sequence of calls add up to the number
/// of calls whose input was at least 4 bytes long.
pub proof fn lemma_report_counts_calls(inputs: Seq<Seq<u8>>)
    ensures
        total(report_of(tally_of(inputs))) == qualifying(inputs),
{
    lemma_tally_of(inputs);
    lemma_report_total(tally_of(inputs));
}

/// A call whose input is exactly a selector is counted under calldata size
/// 0, and its textual key ends in `-0`.
pub proof fn lemma_bare_selector(tally: Histogram, input: Seq<u8>)
    requires
        input.len() == 4,
    ensures
        fingerprint(input) == Some((input, 0nat)),
        record(tally, input) == tally.insert((input, 0nat), count_of(tally, (input, 0nat)) + 1),
        key_text((input, 0nat)) == seq!['0', 'x'] + hex_lower(input) + seq!['-', '0'],
{
    assert(input.subrange(0, 4) =~= input);
    assert(decimal(0) =~= seq!['0']);
    assert(key_text((input, 0nat)) =~= seq!['0', 'x'] + hex_lower(input) + seq!['-', '0']);
}

/// A valid histogram and its report hold the same entries: every
/// fingerprint of the histogram stands in the report under its textual key,
/// with the same count, and the report has no other key.
pub proof fn lemma_report_lossless(tally: Histogram)
    requires
        valid_histogram(tally),
    ensures
        forall|key: Fingerprint| #[trigger]
            tally.dom().contains(key) ==> report_of(tally).dom().contains(key_text(key))
                && report_of(tally)[key_text(key)] == tally[key],
        forall|text: Seq<char>| #[trigger]
            report_of(tally).dom().contains(text) ==> exists|key: Fingerprint|
                is_key_of(tally, text, key),
        forall|a: Fingerprint, b: Fingerprint|
            tally.dom().contains(a) && tally.dom().contains(b) && #[trigger] key_text(a)
                == #[trigger] key_text(b) ==> a == b,
{
    assert forall|key: Fingerprint| #[trigger] tally.dom().contains(key) implies report_of(
        tally,
    ).dom().contains(key_text(key)) && report_of(tally)[key_text(key)] == tally[key] by {
        lemma_report_entry(tally, key);
    }
    assert forall|a: Fingerprint, b: Fingerprint|
        tally.dom().contains(a) && tally.dom().contains(b) && #[trigger] key_text(a)
            == #[trigger] key_text(b) implies a == b by {
        lemma_key_text_injective(a, b);
    }
}

} // verus!
