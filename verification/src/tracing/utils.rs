//! Helpers that turn captured execution results into trace values.

use vstd::prelude::*;
use vstd::slice::slice_subrange;
use alloy_primitives::U256;
use alloy_sol_types::ContractError;
use alloy_sol_types::GenericContractError;
use alloy_sol_types::GenericRevertReason;
use alloy_sol_types::Panic;
use revm::primitives::KECCAK_EMPTY;
use crate::tracing::config::TraceStyle;
use crate::tracing::hardfork::SpecId;
use crate::tracing::outcome::InstructionResult;
use crate::tracing::text::{hex_encode, hex_lower};

verus! {

/// The text of an optional string.
pub open spec fn text_of(s: Option<String>) -> Option<Seq<char>> {
    match s {
        Some(s) => Some(s@),
        None => None,
    }
}

/// The parity-style message of each outcome that has a fixed one.
pub open spec fn parity_message(res: InstructionResult) -> Option<Seq<char>> {
    match res {
        InstructionResult::Revert => Some("Reverted"@),
        InstructionResult::OutOfGas
        | InstructionResult::PrecompileOOG => Some("Out of gas"@),
        InstructionResult::OutOfFunds => Some("Insufficient balance for transfer"@),
        InstructionResult::MemoryOOG => Some("Out of gas"@),
        InstructionResult::MemoryLimitOOG => Some("Out of gas"@),
        InstructionResult::InvalidOperandOOG => Some("Out of gas"@),
        InstructionResult::OpcodeNotFound => Some("Bad instruction"@),
        InstructionResult::StackOverflow => Some("Out of stack"@),
        InstructionResult::InvalidJump => Some("Bad jump destination"@),
        InstructionResult::PrecompileError => Some("Built-in failed"@),
        InstructionResult::InvalidFEOpcode => Some("Bad instruction"@),
        InstructionResult::ReentrancySentryOOG => Some("Out of gas"@),
        _ => None,
    }
}

/// The geth-style message of each outcome that has a fixed one.
pub open spec fn geth_message(res: InstructionResult) -> Option<Seq<char>> {
    match res {
        InstructionResult::Revert => Some("execution reverted"@),
        InstructionResult::OutOfGas
        | InstructionResult::PrecompileOOG => Some("out of gas"@),
        InstructionResult::OutOfFunds => Some("insufficient balance for transfer"@),
        InstructionResult::MemoryOOG => Some("out of gas: out of memory"@),
        InstructionResult::MemoryLimitOOG => Some("out of gas: reach memory limit"@),
        InstructionResult::InvalidOperandOOG => Some("out of gas: invalid operand"@),
        InstructionResult::OpcodeNotFound => Some("invalid opcode"@),
        InstructionResult::StackOverflow => Some("Out of stack"@),
        InstructionResult::InvalidJump => Some("invalid jump destination"@),
        InstructionResult::PrecompileError => Some("precompiled failed"@),
        InstructionResult::InvalidFEOpcode => Some("invalid opcode: INVALID"@),
        InstructionResult::ReentrancySentryOOG => Some(
            "out of gas: not enough gas for reentrancy sentry"@,
        ),
        _ => None,
    }
}

/// The message of a fixed table for the given style.
pub open spec fn table_message(res: InstructionResult, kind: TraceStyle) -> Option<Seq<char>> {
    match kind {
        TraceStyle::Parity => parity_message(res),
        TraceStyle::Geth => geth_message(res),
    }
}

/// The error message of an outcome: none for a success, the table's message
/// for the style where the table has the outcome, and the outcome's name
/// otherwise.
pub open spec fn error_message(res: InstructionResult, kind: TraceStyle) -> Option<Seq<char>> {
    if res.spec_is_ok() {
        None
    } else {
        match table_message(res, kind) {
            Some(msg) => Some(msg),
            None => Some(res.spec_name()),
        }
    }
}

/// Looks an outcome up in the message table. An entry is the pair of the
/// parity-style and the geth-style message.
pub fn known_messages(res: InstructionResult) -> (entry: Option<(&'static str, &'static str)>)
    ensures
        match entry {
            Some((parity, geth)) => parity_message(res) == Some(parity@) && geth_message(res)
                == Some(geth@),
            None => parity_message(res) is None && geth_message(res) is None,
        },
{
    match res {
        InstructionResult::Revert => Some(("Reverted", "execution reverted")),
        InstructionResult::OutOfGas
        | InstructionResult::PrecompileOOG => Some(("Out of gas", "out of gas")),
        InstructionResult::OutOfFunds => Some(
            ("Insufficient balance for transfer", "insufficient balance for transfer"),
        ),
        InstructionResult::MemoryOOG => Some(("Out of gas", "out of gas: out of memory")),
        InstructionResult::MemoryLimitOOG => Some(("Out of gas", "out of gas: reach memory limit")),
        InstructionResult::InvalidOperandOOG => Some(("Out of gas", "out of gas: invalid operand")),
        InstructionResult::OpcodeNotFound => Some(("Bad instruction", "invalid opcode")),
        InstructionResult::StackOverflow => Some(("Out of stack", "Out of stack")),
        InstructionResult::InvalidJump => Some(
            ("Bad jump destination", "invalid jump destination"),
        ),
        InstructionResult::PrecompileError => Some(("Built-in failed", "precompiled failed")),
        InstructionResult::InvalidFEOpcode => Some(("Bad instruction", "invalid opcode: INVALID")),
        InstructionResult::ReentrancySentryOOG => Some(
            ("Out of gas", "out of gas: not enough gas for reentrancy sentry"),
        ),
        _ => None,
    }
}

/// Converts a non successful [`InstructionResult`] to an error message.
///
/// Returns `None` if [`InstructionResult::is_ok`].
pub fn fmt_error_msg(res: InstructionResult, kind: TraceStyle) -> (msg: Option<String>)
    ensures
        text_of(msg) == error_message(res, kind),
        msg is None <==> res.spec_is_ok(),
{
    if res.is_ok() {
        return None;
    }
    let msg = match known_messages(res) {
        Some((parity, geth)) => if kind.is_parity() {
            parity
        } else {
            geth
        },
        None => res.name(),
    };
    Some(msg.to_owned())
}

/// The divisor that caps a refund: a refund is at most the gas spent divided
/// by this. The London upgrade raised it from 2 to 5.
pub open spec fn refund_quotient(spec: SpecId) -> int {
    if spec.enabled_in(SpecId::LONDON) {
        5
    } else {
        2
    }
}

/// Gas used once the refund is accounted for: the gas spent, less the
/// refund, the refund being capped at `spent / refund_quotient(spec)`.
pub open spec fn spec_gas_used(spec: SpecId, spent: int, refunded: int) -> int {
    let cap = spent / refund_quotient(spec);
    spent - if refunded <= cap { refunded } else { cap }
}

/// With the same gas spent and the same refund, the rules before the London
/// upgrade never leave more gas used than the rules from London on: the
/// smaller divisor allows the larger refund.
pub proof fn lemma_gas_used_by_quotient(before: SpecId, after: SpecId, spent: int, refunded: int)
    requires
        !before.enabled_in(SpecId::LONDON),
        after.enabled_in(SpecId::LONDON),
        0 <= spent,
        0 <= refunded,
    ensures
        spec_gas_used(before, spent, refunded) <= spec_gas_used(after, spent, refunded),
        0 <= spec_gas_used(before, spent, refunded),
        spec_gas_used(after, spent, refunded) <= spent,
{
}

/// Get the gas used, accounting for refunds.
pub fn gas_used(spec: SpecId, spent: u64, refunded: u64) -> (used: u64)
    ensures
        used == spec_gas_used(spec, spent as int, refunded as int),
        used <= spent,
{
    let refund_quotient: u64 = if spec.is_enabled_in(SpecId::LONDON) { 5 } else { 2 };
    let cap: u64 = spent / refund_quotient;
    let refund: u64 = if refunded <= cap { refunded } else { cap };
    spent - refund
}

/// The `index`-th 32-byte word of `data`. Where the data ends inside the
/// word, the rest of the word is zero.
pub open spec fn memory_word(data: Seq<u8>, index: int) -> Seq<u8> {
    Seq::new(
        32,
        |j: int|
            if 32 * index + j < data.len() {
                data[32 * index + j]
            } else {
                0u8
            },
    )
}

/// The number of 32-byte words that cover `len` bytes.
pub open spec fn word_count(len: nat) -> nat {
    (len + 31) / 32
}

/// The memory as hexadecimal words: one text of 64 digits for each 32-byte
/// word, in order.
pub open spec fn memory_chunks(data: Seq<u8>) -> Seq<Seq<char>> {
    Seq::new(word_count(data.len()), |i: int| hex_lower(memory_word(data, i)))
}

/// The texts of a sequence of strings.
pub open spec fn texts_of(strings: Seq<String>) -> Seq<Seq<char>> {
    Seq::new(strings.len(), |i: int| strings[i]@)
}

/// Formats memory data into a list of 32-byte hex-encoded chunks.
///
/// A last chunk of fewer than 32 bytes is padded with zero bytes on the
/// right. Empty data gives an empty list.
pub fn convert_memory(data: &[u8]) -> (memory: Vec<String>)
    ensures
        texts_of(memory@) == memory_chunks(data@),
        memory.len() == word_count(data@.len()),
        forall|i: int| 0 <= i < memory.len() ==> (#[trigger] memory[i])@.len() == 64,
{
    let len = data.len();
    let full = len / 32;
    let remainder = len % 32;
    let mut memory: Vec<String> = Vec::with_capacity(
        if remainder == 0 {
            full
        } else {
            full + 1
        },
    );
    let mut i: usize = 0;
    while i < full
        invariant
            len == data@.len(),
            full == len / 32,
            0 <= i <= full,
            memory.len() == i,
            forall|k: int|
                0 <= k < i ==> (#[trigger] memory[k])@ == hex_lower(memory_word(data@, k)),
        decreases full - i,
    {
        let chunk = slice_subrange(data, i * 32, i * 32 + 32);
        assert(chunk@ =~= memory_word(data@, i as int));
        memory.push(hex_encode(chunk));
        i += 1;
    }
    if remainder != 0 {
        let start = full * 32;
        let mut last_chunk = [0u8;32];
        let mut j: usize = 0;
        while j < remainder
            invariant
                len == data@.len(),
                start == full * 32,
                start + remainder == len,
                0 <= j <= remainder < 32,
                forall|k: int| 0 <= k < j ==> last_chunk@[k] == data@[start + k],
                forall|k: int| j <= k < 32 ==> last_chunk@[k] == 0u8,
            decreases remainder - j,
        {
            last_chunk[j] = data[start + j];
            j += 1;
        }
        assert(last_chunk@ =~= memory_word(data@, full as int));
        memory.push(hex_encode(last_chunk.as_slice()));
    }
    assert(texts_of(memory@) =~= memory_chunks(data@));
    memory
}

/// What the ABI decoder found in the output of a call that failed.
#[derive(Debug)]
pub enum RevertReason {
    /// The standard error `Error(string)`, with its message.
    Revert(String),
    /// The compiler-made error `Panic(uint256)`, with its code as 32 bytes,
    /// the most significant first.
    Panic([u8; 32]),
    /// Output that is no encoded error but is valid UTF-8: the text itself.
    RawString(String),
}

/// A [`RevertReason`] with its texts and bytes as sequences.
pub enum RevertReasonView {
    /// The message of the standard error.
    Revert(Seq<char>),
    /// The 32 bytes of the panic code.
    Panic(Seq<u8>),
    /// The text of the output.
    RawString(Seq<char>),
}

impl View for RevertReason {
    type V = RevertReasonView;

    open spec fn view(&self) -> RevertReasonView {
        match self {
            RevertReason::Revert(message) => RevertReasonView::Revert(message@),
            RevertReason::Panic(code) => RevertReasonView::Panic(code@),
            RevertReason::RawString(text) => RevertReasonView::RawString(text@),
        }
    }
}

/// The view of an optional [`RevertReason`].
pub open spec fn reason_view(decoded: Option<RevertReason>) -> Option<RevertReasonView> {
    match decoded {
        Some(reason) => Some(reason@),
        None => None,
    }
}

/// What the ABI decoder makes of the output of a call: the error or text
/// that it recognizes, or `None` where it recognizes neither.
pub uninterp spec fn abi_decoded(output: Seq<u8>) -> Option<RevertReasonView>;

/// The description that the ABI library gives of a panic with this code.
pub uninterp spec fn panic_text(code: Seq<u8>) -> Seq<char>;

/// Decodes the output of a call as a revert reason.
///
/// Trusted: the call is `GenericRevertReason::decode` of `alloy_sol_types`,
/// which first tries the output as an ABI-encoded `Error(string)` or
/// `Panic(uint256)` and then as UTF-8 text. The result depends on the output
/// alone; the contract gives it a name and says no more.
#[verifier::external_body]
fn decode_revert_reason(output: &[u8]) -> (decoded: Option<RevertReason>)
    ensures
        reason_view(decoded) == abi_decoded(output@),
{
    match GenericRevertReason::decode(output)? {
        GenericRevertReason::ContractError(error) => match error {
            ContractError::Revert(revert) => Some(RevertReason::Revert(revert.reason)),
            ContractError::Panic(panic) => Some(RevertReason::Panic(panic.code.to_be_bytes())),
            ContractError::CustomError(never) => match never {},
        },
        GenericRevertReason::RawString(text) => Some(RevertReason::RawString(text)),
    }
}

/// Describes a panic code in words.
///
/// Trusted: the call is `to_string` on a `ContractError::Panic` of
/// `alloy_sol_types`, that is, the `Display` of its `Panic`. The result
/// depends on the code alone; the contract gives it a name and says no more.
#[verifier::external_body]
fn describe_panic(code: &[u8; 32]) -> (text: String)
    ensures
        text@ == panic_text(code@),
{
    GenericContractError::Panic(Panic { code: U256::from_be_bytes(*code) }).to_string()
}

/// The text that stands for a decoded reason: the message of a standard
/// revert, the description of a panic, or the raw text.
pub open spec fn reason_text(reason: RevertReasonView) -> Seq<char> {
    match reason {
        RevertReasonView::Revert(message) => message,
        RevertReasonView::Panic(code) => panic_text(code),
        RevertReasonView::RawString(text) => text,
    }
}

/// The revert reason to report for what the decoder found: the reason's
/// text, unless nothing was found or the text is empty.
pub open spec fn revert_reason(decoded: Option<RevertReasonView>) -> Option<Seq<char>> {
    match decoded {
        Some(reason) => if reason_text(reason).len() == 0 {
            None
        } else {
            Some(reason_text(reason))
        },
        None => None,
    }
}

/// Returns the non-empty revert reason of what the decoder found, if any.
///
/// The message of a standard revert is returned as it is, without the
/// wording that the decoder's own rendering would put before it.
pub fn reason_of(decoded: Option<RevertReason>) -> (reason: Option<String>)
    ensures
        text_of(reason) == revert_reason(reason_view(decoded)),
{
    let reason = match decoded {
        Some(RevertReason::Revert(message)) => message,
        Some(RevertReason::Panic(code)) => describe_panic(&code),
        Some(RevertReason::RawString(text)) => text,
        None => {
            return None;
        },
    };
    if reason.as_str().is_empty() {
        None
    } else {
        Some(reason)
    }
}

/// Returns a non-empty revert reason if the output is a revert/error.
pub fn maybe_revert_reason(output: &[u8]) -> (reason: Option<String>)
    ensures
        text_of(reason) == revert_reason(abi_decoded(output@)),
{
    reason_of(decode_revert_reason(output))
}

/// The Keccak-256 hash of the empty byte string, which is the code hash of
/// an account without code.
pub open spec fn keccak_empty() -> Seq<u8> {
    seq![
        0xc5u8, 0xd2u8, 0x46u8, 0x01u8, 0x86u8, 0xf7u8, 0x23u8, 0x3cu8,
        0x92u8, 0x7eu8, 0x7du8, 0xb2u8, 0xdcu8, 0xc7u8, 0x03u8, 0xc0u8,
        0xe5u8, 0x00u8, 0xb6u8, 0x53u8, 0xcau8, 0x82u8, 0x27u8, 0x3bu8,
        0x7bu8, 0xfau8, 0xd8u8, 0x04u8, 0x5du8, 0x85u8, 0xa4u8, 0x70u8,
    ]
}

/// The code hash of an account without code.
///
/// Trusted: the value is the constant `KECCAK_EMPTY` of `revm`, and the
/// contract spells out its 32 bytes.
#[verifier::external_body]
fn keccak_empty_hash() -> (hash: [u8; 32])
    ensures
        hash@ == keccak_empty(),
{
    KECCAK_EMPTY.0
}

/// Whether two hashes are the same.
fn same_hash(a: &[u8; 32], b: &[u8; 32]) -> (same: bool)
    ensures
        same == (a@ == b@),
{
    let mut i: usize = 0;
    while i < 32
        invariant
            0 <= i <= 32,
            forall|k: int| 0 <= k < i ==> a@[k] == b@[k],
        decreases 32 - i,
    {
        if a[i] != b[i] {
            return false;
        }
        i += 1;
    }
    assert(a@ =~= b@);
    true
}

/// What loading the code of an account comes to, before any data source is
/// asked.
#[derive(Debug)]
pub enum CodeStep<B> {
    /// The code is known: the account's own, or none.
    Done(Option<B>),
    /// The code has to be looked up in the data source, by this hash.
    Lookup([u8; 32]),
}

/// The step that [`load_account_code`] takes.
pub open spec fn code_step<B>(code: Option<B>, code_hash: [u8; 32]) -> CodeStep<B> {
    match code {
        Some(code) => CodeStep::Done(Some(code)),
        None => if code_hash@ == keccak_empty() {
            CodeStep::Done(None)
        } else {
            CodeStep::Lookup(code_hash)
        },
    }
}

/// Loads the code for the given account from the account itself, or says
/// that the database has to be asked.
///
/// `code` is the code that the account carries, if it carries any, and
/// `code_hash` the account's code hash. Code that the account carries is
/// the result. Without it, an account whose hash is that of empty code has
/// no code, and for any other the code is to be looked up by the hash; what
/// the lookup gives goes through [`looked_up_code`].
pub fn load_account_code<B>(code: Option<B>, code_hash: &[u8; 32]) -> (step: CodeStep<B>)
    ensures
        step == code_step(code, *code_hash),
{
    match code {
        Some(code) => CodeStep::Done(Some(code)),
        None => {
            let empty = keccak_empty_hash();
            if same_hash(code_hash, &empty) {
                CodeStep::Done(None)
            } else {
                CodeStep::Lookup(*code_hash)
            }
        },
    }
}

/// The code that a lookup in the data source comes to: what was found, and
/// no code where the lookup failed.
pub fn looked_up_code<B, E>(found: Result<B, E>) -> (code: Option<B>)
    ensures
        code == match found {
            Ok(code) => Some(code),
            Err(_) => None,
        },
{
    match found {
        Ok(code) => Some(code),
        Err(_) => None,
    }
}

} // verus!
