//! Fourbyte tracing inspector
//!
//! Solidity contract functions are addressed using the first four bytes of the Keccak-256 hash of
//! their signature. Therefore when calling the function of a contract, the caller must send this
//! function selector as well as the ABI-encoded arguments as call data.
//!
//! The inspector collects the function selectors of every function executed in the lifetime of a
//! transaction, along with the size of the supplied call data. The result is a map of
//! SELECTOR-CALLDATASIZE to number of occurrences entries, where the keys are SELECTOR-CALLDATASIZE
//! and the values are number of occurrences of this key. For example:
//!
//! ```json
//! {
//!   "0x27dc297e-128": 1,
//!   "0x38cc4831-0": 2,
//!   "0x524f3889-96": 1,
//!   "0xadf59f99-288": 1,
//!   "0xc281d19e-0": 1
//! }
//! ```

use vstd::prelude::*;
use vstd::string::StringExecFns;
use alloy_primitives::map::DefaultHashBuilder;
use alloy_primitives::map::HashMap;
use alloy_primitives::FixedBytes;
use alloy_primitives::Selector;
use alloy_rpc_types_trace::geth::FourByteFrame;
use revm::interpreter::CallOutcome;
use crate::tracing::histogram::{
    count_of, fingerprint, four_byte_selectors, key_text, lemma_record, lemma_report_insert, record,
    report_of, tally_of, valid_histogram, Fingerprint, Histogram, Report,
};
use crate::tracing::text::{decimal_string, hex_encode};

verus! {

/// `alloy_primitives::FixedBytes`, a fixed number of bytes. [`Selector`] is
/// the one of four bytes.
#[verifier::external_type_specification]
#[verifier::external_body]
pub struct ExFixedBytes<const N: usize>(FixedBytes<N>);

/// `alloy_primitives::map::DefaultHashBuilder`, the hasher of the maps of
/// `alloy_primitives`.
#[verifier::external_type_specification]
#[verifier::external_body]
pub struct ExDefaultHashBuilder(DefaultHashBuilder);

/// `alloy_rpc_types_trace::geth::FourByteFrame`, the report of the tally: an
/// ordered map from textual key to count.
#[verifier::external_type_specification]
#[verifier::external_body]
pub struct ExFourByteFrame(FourByteFrame);

/// `revm::interpreter::CallOutcome`, the result with which an inspector can
/// replace the execution of a call.
#[verifier::external_type_specification]
#[verifier::external_body]
pub struct ExCallOutcome(CallOutcome);

/// What a map of the tally holds: for each selector and calldata size that
/// is a key of the map, the count stored under it.
pub uninterp spec fn tally_entries(tally: HashMap<(Selector, usize), u64>) -> Histogram;

/// What a report holds: for each key of its map, the count stored under it.
pub uninterp spec fn frame_entries(frame: FourByteFrame) -> Report;

/// An entry as a map of the tally hands it out: selector, calldata size and
/// count.
pub type Entry = ([u8; 4], usize, u64);

/// The fingerprint under which an entry stands.
pub open spec fn entry_key(entry: Entry) -> Fingerprint {
    (entry.0@, entry.1 as nat)
}

/// The histogram that holds the listed entries.
pub open spec fn listed(entries: Seq<Entry>) -> Histogram
    decreases entries.len(),
{
    if entries.len() == 0 {
        Map::empty()
    } else {
        listed(entries.drop_last()).insert(entry_key(entries.last()), entries.last().2 as nat)
    }
}

/// The report that holds the listed entries, each under its textual key.
pub open spec fn reported(entries: Seq<Entry>) -> Report
    decreases entries.len(),
{
    if entries.len() == 0 {
        Map::empty()
    } else {
        reported(entries.drop_last()).insert(
            key_text(entry_key(entries.last())),
            entries.last().2 as nat,
        )
    }
}

/// The report of listed entries is the report of the histogram that holds
/// them.
pub proof fn lemma_reported(entries: Seq<Entry>)
    ensures
        four_byte_selectors(listed(entries)),
        reported(entries) == report_of(listed(entries)),
    decreases entries.len(),
{
    if entries.len() == 0 {
        assert(report_of(Histogram::empty()) =~= Report::empty());
    } else {
        lemma_reported(entries.drop_last());
        lemma_report_insert(
            listed(entries.drop_last()),
            entry_key(entries.last()),
            entries.last().2 as nat,
        );
    }
}

/// An empty map for the tally.
///
/// Trusted: the call is `HashMap::default` of std, with the hasher of
/// `alloy_primitives`. The new map holds nothing.
#[verifier::external_body]
fn tally_new() -> (tally: HashMap<(Selector, usize), u64>)
    ensures
        tally_entries(tally) == Histogram::empty(),
{
    HashMap::default()
}

/// The count stored for a selector and calldata size.
///
/// Trusted: the call is `HashMap::get` of std. It returns the value stored
/// under the key, and `None` where the map has no such key.
#[verifier::external_body]
fn tally_get(
    tally: &HashMap<(Selector, usize), u64>,
    selector: &[u8; 4],
    calldata_size: usize,
) -> (count: Option<u64>)
    ensures
        match count {
            Some(n) => tally_entries(*tally).dom().contains((selector@, calldata_size as nat))
                && tally_entries(*tally)[(selector@, calldata_size as nat)] == n,
            None => !tally_entries(*tally).dom().contains((selector@, calldata_size as nat)),
        },
{
    tally.get(&(Selector::from(*selector), calldata_size)).copied()
}

/// Stores a count for a selector and calldata size.
///
/// Trusted: the call is `HashMap::insert` of std. Afterwards the map holds
/// the value under the key, in place of an earlier one if there was one, and
/// every other entry as before.
#[verifier::external_body]
fn tally_insert(
    tally: &mut HashMap<(Selector, usize), u64>,
    selector: &[u8; 4],
    calldata_size: usize,
    count: u64,
)
    ensures
        tally_entries(*final(tally)) == tally_entries(*old(tally)).insert(
            (selector@, calldata_size as nat),
            count as nat,
        ),
{
    tally.insert((Selector::from(*selector), calldata_size), count);
}

/// A copy of a map of the tally.
///
/// Trusted: the call is `HashMap::clone` of std. The copy holds the entries
/// of the map.
#[verifier::external_body]
fn tally_clone(tally: &HashMap<(Selector, usize), u64>) -> (copy: HashMap<(Selector, usize), u64>)
    ensures
        tally_entries(copy) == tally_entries(*tally),
{
    tally.clone()
}

/// The entries of a map of the tally, in the order in which the map hands
/// them out.
///
/// Trusted: the call is `HashMap::iter` of std, each item copied out. The
/// list holds the entries of the map and nothing else. Nothing is said of
/// the order.
#[verifier::external_body]
fn tally_list(tally: &HashMap<(Selector, usize), u64>) -> (entries: Vec<Entry>)
    ensures
        listed(entries@) == tally_entries(*tally),
{
    tally.iter().map(|((selector, size), count)| (selector.0, *size, *count)).collect()
}

/// A report without entries.
///
/// Trusted: the call is `FourByteFrame::default`, which the crate derives:
/// the default of the map inside, an empty map.
#[verifier::external_body]
fn frame_new() -> (frame: FourByteFrame)
    ensures
        frame_entries(frame) == Report::empty(),
{
    FourByteFrame::default()
}

/// Stores a count under a key of a report.
///
/// Trusted: the call is `BTreeMap::insert` of std, on the map inside the
/// frame. Afterwards the map holds the value under the key, in place of an
/// earlier one if there was one, and every other entry as before.
#[verifier::external_body]
fn frame_insert(frame: &mut FourByteFrame, key: String, count: u64)
    ensures
        frame_entries(*final(frame)) == frame_entries(*old(frame)).insert(key@, count as nat),
{
    frame.0.insert(key, count);
}

/// The input of a call, as the execution engine hands it to an inspector.
#[derive(Clone, Copy, Debug)]
pub enum CallInput<'a> {
    /// The input lies in a range of the engine's shared buffer. The field
    /// holds the bytes of that range, or `None` where the engine could not
    /// hand them out.
    SharedBuffer(Option<&'a [u8]>),
    /// The bytes of the input.
    Bytes(&'a [u8]),
}

impl<'a> CallInput<'a> {
    /// The bytes of the input. An input whose bytes could not be had counts
    /// as empty.
    pub open spec fn bytes(self) -> Seq<u8> {
        match self {
            CallInput::SharedBuffer(Some(slice)) => slice@,
            CallInput::SharedBuffer(None) => Seq::empty(),
            CallInput::Bytes(bytes) => bytes@,
        }
    }

    /// The bytes of the input, where there are any.
    pub fn resolved(&self) -> (slice: Option<&'a [u8]>)
        ensures
            slice == match *self {
                CallInput::SharedBuffer(slice) => slice,
                CallInput::Bytes(bytes) => Some(bytes),
            },
    {
        match self {
            CallInput::SharedBuffer(slice) => *slice,
            CallInput::Bytes(bytes) => Some(*bytes),
        }
    }

    /// Returns the length of the call input.
    pub fn len(&self) -> (len: usize)
        ensures
            len == self.bytes().len(),
    {
        match self.resolved() {
            Some(slice) => slice.len(),
            None => 0,
        }
    }

    /// Returns the selector and the calldata size of the call, or `None`
    /// where the input is too short to hold a selector.
    pub fn fingerprint(&self) -> (key: Option<([u8; 4], usize)>)
        ensures
            match key {
                Some((selector, calldata_size)) => fingerprint(self.bytes()) == Some(
                    (selector@, calldata_size as nat),
                ),
                None => fingerprint(self.bytes()) is None,
            },
    {
        match self.resolved() {
            Some(bytes) => {
                if bytes.len() >= 4 {
                    let selector: [u8; 4] = [bytes[0], bytes[1], bytes[2], bytes[3]];
                    assert(selector@ =~= bytes@.subrange(0, 4));
                    Some((selector, bytes.len() - 4))
                } else {
                    None
                }
            },
            None => None,
        }
    }
}

/// The counter of the call's fingerprint can take one more call.
pub open spec fn has_room(tally: Histogram, input: Seq<u8>) -> bool {
    match fingerprint(input) {
        Some(key) => count_of(tally, key) < u64::MAX,
        None => true,
    }
}

/// Renders the key of a report entry: `0x`, the selector in lowercase
/// hexadecimal, `-`, and the calldata size in decimal.
pub fn format_key(selector: &[u8; 4], calldata_size: usize) -> (key: String)
    ensures
        key@ == key_text((selector@, calldata_size as nat)),
{
    proof {
        reveal_strlit("0x");
        reveal_strlit("-");
    }
    let mut key = "0x".to_owned();
    key.append(hex_encode(selector.as_slice()).as_str());
    key.append("-");
    key.append(decimal_string(calldata_size).as_str());
    assert(key@ =~= key_text((selector@, calldata_size as nat)));
    key
}

/// Fourbyte tracing inspector that records all function selectors and their calldata sizes.
#[derive(Debug)]
pub struct FourByteInspector {
    /// The map of SELECTOR to number of occurrences entries
    inner: HashMap<(Selector, usize), u64>,
}

impl View for FourByteInspector {
    type V = Histogram;

    /// The histogram that the inspector has built.
    closed spec fn view(&self) -> Histogram {
        tally_entries(self.inner)
    }
}

impl Clone for FourByteInspector {
    /// An inspector with the same histogram.
    fn clone(&self) -> (copy: Self)
        ensures
            copy@ == self@,
    {
        proof {
            use_type_invariant(self);
        }
        FourByteInspector { inner: tally_clone(&self.inner) }
    }
}

impl Default for FourByteInspector {
    /// An inspector that has seen no call.
    fn default() -> (inspector: Self)
        ensures
            inspector@ == Histogram::empty(),
    {
        FourByteInspector { inner: tally_new() }
    }
}

impl FourByteInspector {
    #[verifier::type_invariant]
    spec fn well_formed(&self) -> bool {
        valid_histogram(tally_entries(self.inner))
    }

    /// Returns the map of SELECTOR to number of occurrences entries
    pub fn inner(&self) -> (tally: &HashMap<(Selector, usize), u64>)
        ensures
            tally_entries(*tally) == self@,
            valid_histogram(self@),
    {
        proof {
            use_type_invariant(self);
        }
        &self.inner
    }

    /// Returns the number of calls recorded for a selector and calldata
    /// size.
    pub fn count(&self, selector: &[u8; 4], calldata_size: usize) -> (count: u64)
        ensures
            count == count_of(self@, (selector@, calldata_size as nat)),
    {
        match tally_get(&self.inner, selector, calldata_size) {
            Some(count) => count,
            None => 0,
        }
    }

    /// Returns whether [`FourByteInspector::call`] can record the input,
    /// which it can unless the counter of the input's fingerprint is at the
    /// largest value that it can hold.
    pub fn can_record(&self, input: &CallInput) -> (room: bool)
        ensures
            room == has_room(self@, input.bytes()),
    {
        match input.fingerprint() {
            Some((selector, calldata_size)) => self.count(&selector, calldata_size) < u64::MAX,
            None => true,
        }
    }

    /// Records a call that is about to start.
    ///
    /// An input of fewer than 4 bytes holds no selector and is ignored.
    /// Otherwise the first 4 bytes are the selector, the number of bytes
    /// after them is the calldata size, and the count of the two together
    /// goes up by one. The call itself is left alone: the result is always
    /// `None`, which lets the engine execute it.
    pub fn call(&mut self, input: &CallInput) -> (outcome: Option<CallOutcome>)
        requires
            has_room(old(self)@, input.bytes()),
        ensures
            final(self)@ == record(old(self)@, input.bytes()),
            valid_histogram(final(self)@),
            outcome is None,
    {
        proof {
            use_type_invariant(&*self);
        }
        if let Some((selector, calldata_size)) = input.fingerprint() {
            let count = self.count(&selector, calldata_size);
            // The map is changed outside the inspector, which holds an empty
            // one meanwhile: should the insertion panic, the inspector is
            // left with a valid histogram.
            let mut tally = tally_new();
            core::mem::swap(&mut self.inner, &mut tally);
            tally_insert(&mut tally, &selector, calldata_size, count + 1);
            self.inner = tally;
            proof {
                lemma_record(old(self)@, input.bytes());
            }
        }
        None
    }
}

/// A frame is opaque to contracts, so the conversion has no specification
/// function to obey: what it returns is stated by the `ensures` of `from`,
/// over [`frame_entries`].
impl vstd::std_specs::convert::FromSpecImpl<&FourByteInspector> for FourByteFrame {
    open spec fn obeys_from_spec() -> bool {
        false
    }

    open spec fn from_spec(value: &FourByteInspector) -> Self {
        arbitrary()
    }
}

impl From<&FourByteInspector> for FourByteFrame {
    /// The report of what the inspector has recorded: each count, under the
    /// key made of selector and calldata size.
    fn from(value: &FourByteInspector) -> (frame: Self)
        ensures
            frame_entries(frame) == report_of(value@),
            valid_histogram(value@),
    {
        proof {
            use_type_invariant(value);
        }
        let entries = tally_list(&value.inner);
        let mut frame = frame_new();
        let mut i: usize = 0;
        while i < entries.len()
            invariant
                0 <= i <= entries.len(),
                frame_entries(frame) == reported(entries@.take(i as int)),
            decreases entries.len() - i,
        {
            let entry = entries[i];
            let key = format_key(&entry.0, entry.1);
            frame_insert(&mut frame, key, entry.2);
            proof {
                assert(entries@.take(i + 1).drop_last() =~= entries@.take(i as int));
            }
            i += 1;
        }
        proof {
            assert(entries@.take(i as int) =~= entries@);
            lemma_reported(entries@);
        }
        frame
    }
}

/// As for the conversion from a reference: the `ensures` of `from` states
/// the result.
impl vstd::std_specs::convert::FromSpecImpl<FourByteInspector> for FourByteFrame {
    open spec fn obeys_from_spec() -> bool {
        false
    }

    open spec fn from_spec(value: FourByteInspector) -> Self {
        arbitrary()
    }
}

impl From<FourByteInspector> for FourByteFrame {
    /// The report of what the inspector has recorded.
    fn from(value: FourByteInspector) -> (frame: Self)
        ensures
            frame_entries(frame) == report_of(value@),
            valid_histogram(value@),
    {
        Self::from(&value)
    }
}

/// Two inspectors that have been through the same sequence of calls hold
/// the same histogram and give the same report.
pub proof fn lemma_replay_agrees(
    first: FourByteInspector,
    second: FourByteInspector,
    inputs: Seq<Seq<u8>>,
)
    requires
        first@ == tally_of(inputs),
        second@ == tally_of(inputs),
    ensures
        first@ == second@,
        report_of(first@) == report_of(second@),
{
}

} // verus!
