use alloy_primitives::hex;
use alloy_primitives::U256;
use alloy_sol_types::{GenericContractError, Panic, Revert, SolInterface};
use revm_inspectors::tracing::config::TraceStyle;
use revm_inspectors::tracing::hardfork::SpecId;
use revm_inspectors::tracing::outcome::InstructionResult;
use revm_inspectors::tracing::text::decimal_string;
use revm_inspectors::tracing::utils::{
    convert_memory, fmt_error_msg, gas_used, known_messages, load_account_code, looked_up_code,
    maybe_revert_reason, reason_of, CodeStep, RevertReason,
};

fn outcomes() -> Vec<(InstructionResult, revm::interpreter::InstructionResult)> {
    vec![
        (InstructionResult::Stop, revm::interpreter::InstructionResult::Stop),
        (InstructionResult::Return, revm::interpreter::InstructionResult::Return),
        (InstructionResult::SelfDestruct, revm::interpreter::InstructionResult::SelfDestruct),
        (InstructionResult::Suspend, revm::interpreter::InstructionResult::Suspend),
        (InstructionResult::Revert, revm::interpreter::InstructionResult::Revert),
        (InstructionResult::CallTooDeep, revm::interpreter::InstructionResult::CallTooDeep),
        (InstructionResult::OutOfFunds, revm::interpreter::InstructionResult::OutOfFunds),
        (
            InstructionResult::CreateInitCodeStartingEF00,
            revm::interpreter::InstructionResult::CreateInitCodeStartingEF00,
        ),
        (
            InstructionResult::InvalidEOFInitCode,
            revm::interpreter::InstructionResult::InvalidEOFInitCode,
        ),
        (
            InstructionResult::InvalidExtDelegateCallTarget,
            revm::interpreter::InstructionResult::InvalidExtDelegateCallTarget,
        ),
        (InstructionResult::OutOfGas, revm::interpreter::InstructionResult::OutOfGas),
        (InstructionResult::MemoryOOG, revm::interpreter::InstructionResult::MemoryOOG),
        (InstructionResult::MemoryLimitOOG, revm::interpreter::InstructionResult::MemoryLimitOOG),
        (InstructionResult::PrecompileOOG, revm::interpreter::InstructionResult::PrecompileOOG),
        (
            InstructionResult::InvalidOperandOOG,
            revm::interpreter::InstructionResult::InvalidOperandOOG,
        ),
        (
            InstructionResult::ReentrancySentryOOG,
            revm::interpreter::InstructionResult::ReentrancySentryOOG,
        ),
        (InstructionResult::OpcodeNotFound, revm::interpreter::InstructionResult::OpcodeNotFound),
        (
            InstructionResult::CallNotAllowedInsideStatic,
            revm::interpreter::InstructionResult::CallNotAllowedInsideStatic,
        ),
        (
            InstructionResult::StateChangeDuringStaticCall,
            revm::interpreter::InstructionResult::StateChangeDuringStaticCall,
        ),
        (InstructionResult::InvalidFEOpcode, revm::interpreter::InstructionResult::InvalidFEOpcode),
        (InstructionResult::InvalidJump, revm::interpreter::InstructionResult::InvalidJump),
        (InstructionResult::NotActivated, revm::interpreter::InstructionResult::NotActivated),
        (InstructionResult::StackUnderflow, revm::interpreter::InstructionResult::StackUnderflow),
        (InstructionResult::StackOverflow, revm::interpreter::InstructionResult::StackOverflow),
        (InstructionResult::OutOfOffset, revm::interpreter::InstructionResult::OutOfOffset),
        (InstructionResult::CreateCollision, revm::interpreter::InstructionResult::CreateCollision),
        (InstructionResult::OverflowPayment, revm::interpreter::InstructionResult::OverflowPayment),
        (InstructionResult::PrecompileError, revm::interpreter::InstructionResult::PrecompileError),
        (InstructionResult::NonceOverflow, revm::interpreter::InstructionResult::NonceOverflow),
        (
            InstructionResult::CreateContractSizeLimit,
            revm::interpreter::InstructionResult::CreateContractSizeLimit,
        ),
        (
            InstructionResult::CreateContractStartingWithEF,
            revm::interpreter::InstructionResult::CreateContractStartingWithEF,
        ),
        (
            InstructionResult::CreateInitCodeSizeLimit,
            revm::interpreter::InstructionResult::CreateInitCodeSizeLimit,
        ),
        (
            InstructionResult::FatalExternalError,
            revm::interpreter::InstructionResult::FatalExternalError,
        ),
        (
            InstructionResult::InvalidImmediateEncoding,
            revm::interpreter::InstructionResult::InvalidImmediateEncoding,
        ),
    ]
}

fn hardforks() -> Vec<(SpecId, revm::primitives::hardfork::SpecId)> {
    vec![
        (SpecId::FRONTIER, revm::primitives::hardfork::SpecId::FRONTIER),
        (SpecId::HOMESTEAD, revm::primitives::hardfork::SpecId::HOMESTEAD),
        (SpecId::TANGERINE, revm::primitives::hardfork::SpecId::TANGERINE),
        (SpecId::SPURIOUS_DRAGON, revm::primitives::hardfork::SpecId::SPURIOUS_DRAGON),
        (SpecId::BYZANTIUM, revm::primitives::hardfork::SpecId::BYZANTIUM),
        (SpecId::PETERSBURG, revm::primitives::hardfork::SpecId::PETERSBURG),
        (SpecId::ISTANBUL, revm::primitives::hardfork::SpecId::ISTANBUL),
        (SpecId::BERLIN, revm::primitives::hardfork::SpecId::BERLIN),
        (SpecId::LONDON, revm::primitives::hardfork::SpecId::LONDON),
        (SpecId::MERGE, revm::primitives::hardfork::SpecId::MERGE),
        (SpecId::SHANGHAI, revm::primitives::hardfork::SpecId::SHANGHAI),
        (SpecId::CANCUN, revm::primitives::hardfork::SpecId::CANCUN),
        (SpecId::PRAGUE, revm::primitives::hardfork::SpecId::PRAGUE),
        (SpecId::OSAKA, revm::primitives::hardfork::SpecId::OSAKA),
        (SpecId::AMSTERDAM, revm::primitives::hardfork::SpecId::AMSTERDAM),
    ]
}

fn both(res: InstructionResult) -> (Option<String>, Option<String>) {
    (fmt_error_msg(res, TraceStyle::Parity), fmt_error_msg(res, TraceStyle::Geth))
}

fn pair(parity: &str, geth: &str) -> (Option<String>, Option<String>) {
    (Some(parity.to_string()), Some(geth.to_string()))
}

#[test]
fn decode_revert_reason() {
    let err = GenericContractError::Revert("my revert".into());
    let encoded = err.abi_encode();
    let reason = maybe_revert_reason(&encoded).unwrap();
    assert_eq!(reason, "my revert");
}

fn uniswap_revert_output() -> String {
    [
        "08c379a0",
        "0000000000000000000000000000000000000000000000000000000000000020",
        "0000000000000000000000000000000000000000000000000000000000000024",
        "556e697377617056323a20494e53554646494349454e545f494e5055545f414d",
        "4f554e5400000000000000000000000000000000000000000000000000000080",
    ]
    .concat()
}

// <https://etherscan.io/tx/0x105707c8e3b3675a8424a7b0820b271cbe394eaf4d5065b03c273298e3a81314>
#[test]
fn decode_revert_reason_with_error() {
    let err = hex::decode(uniswap_revert_output()).unwrap();
    let reason = maybe_revert_reason(&err[..]).unwrap();
    assert_eq!(reason, "UniswapV2: INSUFFICIENT_INPUT_AMOUNT");
}

#[test]
fn revert_reason_of_empty_message_is_absent() {
    let err = GenericContractError::Revert(Revert { reason: String::new() });
    assert_eq!(maybe_revert_reason(&err.abi_encode()), None);
}

#[test]
fn revert_reason_of_empty_output_is_absent() {
    assert_eq!(maybe_revert_reason(&[]), None);
}

#[test]
fn revert_reason_of_undecodable_output_is_absent() {
    assert_eq!(maybe_revert_reason(&[0xff, 0xfe, 0xfd]), None);
    assert_eq!(maybe_revert_reason(&[0x08, 0xc3, 0x79, 0xa0, 0xff]), None);
}

#[test]
fn revert_reason_of_raw_text_is_the_text() {
    assert_eq!(
        maybe_revert_reason(b"not enough tokens"),
        Some("not enough tokens".to_string())
    );
}

#[test]
fn revert_reason_of_panic_is_its_description() {
    let err = GenericContractError::Panic(Panic { code: U256::from(0x11) });
    assert_eq!(
        maybe_revert_reason(&err.abi_encode()),
        Some("panic: arithmetic underflow or overflow (0x11)".to_string())
    );
    let unknown = GenericContractError::Panic(Panic { code: U256::from(0x1234) });
    assert_eq!(maybe_revert_reason(&unknown.abi_encode()), Some(unknown.to_string()));
}

#[test]
fn reason_of_each_decoded_kind() {
    assert_eq!(reason_of(None), None);
    assert_eq!(
        reason_of(Some(RevertReason::Revert("my revert".to_string()))),
        Some("my revert".to_string())
    );
    assert_eq!(reason_of(Some(RevertReason::Revert(String::new()))), None);
    assert_eq!(
        reason_of(Some(RevertReason::RawString("raw".to_string()))),
        Some("raw".to_string())
    );
    assert_eq!(reason_of(Some(RevertReason::RawString(String::new()))), None);
    let mut code = [0u8; 32];
    code[31] = 0x01;
    assert_eq!(
        reason_of(Some(RevertReason::Panic(code))),
        Some("panic: assertion failed (0x01)".to_string())
    );
    let mut large = [0u8; 32];
    large[0] = 0x80;
    let display =
        GenericContractError::Panic(Panic { code: U256::from_be_bytes(large) }).to_string();
    assert_ne!(display, "panic: assertion failed (0x01)");
    assert_eq!(reason_of(Some(RevertReason::Panic(large))), Some(display));
}

#[test]
fn success_has_no_error_message() {
    for res in [
        InstructionResult::Stop,
        InstructionResult::Return,
        InstructionResult::SelfDestruct,
        InstructionResult::Suspend,
    ] {
        assert!(res.is_ok());
        assert_eq!(fmt_error_msg(res, TraceStyle::Parity), None);
        assert_eq!(fmt_error_msg(res, TraceStyle::Geth), None);
    }
}

#[test]
fn revert_message_in_both_styles() {
    assert_eq!(
        fmt_error_msg(InstructionResult::Revert, TraceStyle::Parity),
        Some("Reverted".to_string())
    );
    assert_eq!(
        fmt_error_msg(InstructionResult::Revert, TraceStyle::Geth),
        Some("execution reverted".to_string())
    );
}

#[test]
fn error_message_table() {
    assert_eq!(both(InstructionResult::Revert), pair("Reverted", "execution reverted"));
    assert_eq!(both(InstructionResult::OutOfGas), pair("Out of gas", "out of gas"));
    assert_eq!(both(InstructionResult::PrecompileOOG), pair("Out of gas", "out of gas"));
    assert_eq!(
        both(InstructionResult::OutOfFunds),
        pair("Insufficient balance for transfer", "insufficient balance for transfer")
    );
    assert_eq!(both(InstructionResult::MemoryOOG), pair("Out of gas", "out of gas: out of memory"));
    assert_eq!(
        both(InstructionResult::MemoryLimitOOG),
        pair("Out of gas", "out of gas: reach memory limit")
    );
    assert_eq!(
        both(InstructionResult::InvalidOperandOOG),
        pair("Out of gas", "out of gas: invalid operand")
    );
    assert_eq!(both(InstructionResult::OpcodeNotFound), pair("Bad instruction", "invalid opcode"));
    assert_eq!(both(InstructionResult::StackOverflow), pair("Out of stack", "Out of stack"));
    assert_eq!(
        both(InstructionResult::InvalidJump),
        pair("Bad jump destination", "invalid jump destination")
    );
    assert_eq!(
        both(InstructionResult::PrecompileError),
        pair("Built-in failed", "precompiled failed")
    );
    assert_eq!(
        both(InstructionResult::InvalidFEOpcode),
        pair("Bad instruction", "invalid opcode: INVALID")
    );
    assert_eq!(
        both(InstructionResult::ReentrancySentryOOG),
        pair("Out of gas", "out of gas: not enough gas for reentrancy sentry")
    );
}

#[test]
fn error_message_outside_the_table_is_the_debug_rendering() {
    assert_eq!(both(InstructionResult::CallTooDeep), pair("CallTooDeep", "CallTooDeep"));
    assert_eq!(both(InstructionResult::StackUnderflow), pair("StackUnderflow", "StackUnderflow"));
    let mut outside = 0;
    for (res, engine) in outcomes() {
        if !engine.is_ok() && known_messages(res).is_none() {
            outside += 1;
            let rendered = format!("{:?}", engine);
            assert_eq!(both(res), pair(&rendered, &rendered));
        }
    }
    assert_eq!(outside, 17);
}

#[test]
fn outcomes_agree_with_the_engine() {
    let all = outcomes();
    assert_eq!(all.len(), 34);
    for (res, engine) in all {
        assert_eq!(res.is_ok(), engine.is_ok());
        assert_eq!(res.name(), format!("{:?}", engine));
        assert_eq!(format!("{:?}", res), format!("{:?}", engine));
        assert_eq!(fmt_error_msg(res, TraceStyle::Geth).is_none(), engine.is_ok());
    }
}

#[test]
fn hardforks_agree_with_the_engine() {
    let all = hardforks();
    assert_eq!(all.len(), 15);
    for (spec, engine) in &all {
        assert_eq!(spec.to_u8(), *engine as u8);
        for (other, other_engine) in &all {
            assert_eq!(spec.is_enabled_in(*other), engine.is_enabled_in(*other_engine));
        }
    }
    assert!(SpecId::LONDON.is_enabled_in(SpecId::LONDON));
    assert!(SpecId::CANCUN.is_enabled_in(SpecId::LONDON));
    assert!(!SpecId::BERLIN.is_enabled_in(SpecId::LONDON));
}

#[test]
fn gas_used_caps_the_refund() {
    // From London on the refund is at most a fifth of the gas spent.
    assert_eq!(gas_used(SpecId::LONDON, 100, 50), 80);
    assert_eq!(gas_used(SpecId::CANCUN, 100, 10), 90);
    assert_eq!(gas_used(SpecId::LONDON, 104, 20), 84);
    assert_eq!(gas_used(SpecId::LONDON, 104, 21), 84);
    // Before London it is at most a half.
    assert_eq!(gas_used(SpecId::BERLIN, 100, 70), 50);
    assert_eq!(gas_used(SpecId::FRONTIER, 100, 7), 93);
    assert_eq!(gas_used(SpecId::BERLIN, 101, 60), 51);
    // Edges.
    assert_eq!(gas_used(SpecId::LONDON, 0, 5), 0);
    assert_eq!(gas_used(SpecId::LONDON, 4, 5), 4);
    assert_eq!(gas_used(SpecId::BERLIN, 1, 5), 1);
    assert_eq!(gas_used(SpecId::LONDON, u64::MAX, u64::MAX), u64::MAX - u64::MAX / 5);
    assert_eq!(gas_used(SpecId::BERLIN, u64::MAX, u64::MAX), u64::MAX - u64::MAX / 2);
    assert_eq!(gas_used(SpecId::PRAGUE, 21000, 0), 21000);
}

#[test]
fn gas_used_is_no_higher_before_london() {
    for spent in [0u64, 1, 2, 5, 9, 10, 100, 21000, 1 << 40, u64::MAX] {
        for refunded in [0u64, 1, 2, 3, 50, 4800, 1 << 39, u64::MAX] {
            let before = gas_used(SpecId::BERLIN, spent, refunded);
            let after = gas_used(SpecId::LONDON, spent, refunded);
            assert!(before <= after);
            assert!(after <= spent);
        }
    }
}

#[test]
fn convert_memory_of_nothing_is_empty() {
    assert_eq!(convert_memory(&[]), Vec::<String>::new());
}

#[test]
fn convert_memory_encodes_full_words() {
    let mut data = Vec::new();
    for i in 0..64u8 {
        data.push(i);
    }
    assert_eq!(
        convert_memory(&data),
        vec![
            "000102030405060708090a0b0c0d0e0f101112131415161718191a1b1c1d1e1f".to_string(),
            "202122232425262728292a2b2c2d2e2f303132333435363738393a3b3c3d3e3f".to_string(),
        ]
    );
}

#[test]
fn convert_memory_pads_the_last_word() {
    assert_eq!(
        convert_memory(&[0xab]),
        vec!["ab00000000000000000000000000000000000000000000000000000000000000".to_string()]
    );
    let mut data = vec![0xffu8; 32];
    data.push(0x01);
    data.push(0xf0);
    assert_eq!(
        convert_memory(&data),
        vec![
            "ffffffffffffffffffffffffffffffffffffffffffffffffffffffffffffffff".to_string(),
            "01f0000000000000000000000000000000000000000000000000000000000000".to_string(),
        ]
    );
}

#[test]
fn convert_memory_chunk_count_and_width() {
    for len in [0usize, 1, 31, 32, 33, 63, 64, 65, 100, 1000] {
        let data = vec![0x5au8; len];
        let chunks = convert_memory(&data);
        assert_eq!(chunks.len(), (len + 31) / 32);
        for chunk in &chunks {
            assert_eq!(chunk.len(), 64);
        }
    }
}

#[test]
fn load_account_code_prefers_the_code_of_the_account() {
    let hash = [7u8; 32];
    assert!(matches!(
        load_account_code(Some(vec![0x60u8, 0x00]), &hash),
        CodeStep::Done(Some(code)) if code == vec![0x60u8, 0x00]
    ));
    let empty = revm::primitives::KECCAK_EMPTY.0;
    assert!(matches!(
        load_account_code(Some(vec![1u8]), &empty),
        CodeStep::Done(Some(code)) if code == vec![1u8]
    ));
}

#[test]
fn load_account_code_of_empty_hash_is_absent() {
    let empty = revm::primitives::KECCAK_EMPTY.0;
    assert!(matches!(load_account_code::<Vec<u8>>(None, &empty), CodeStep::Done(None)));
    let spelled =
        hex::decode("c5d2460186f7233c927e7db2dcc703c0e500b653ca82273b7bfad8045d85a470").unwrap();
    assert_eq!(&empty[..], &spelled[..]);
}

#[test]
fn load_account_code_asks_for_a_lookup_by_hash() {
    let hash = [7u8; 32];
    assert!(matches!(
        load_account_code::<Vec<u8>>(None, &hash),
        CodeStep::Lookup(asked) if asked == hash
    ));
    let mut near = revm::primitives::KECCAK_EMPTY.0;
    near[31] ^= 1;
    assert!(matches!(
        load_account_code::<Vec<u8>>(None, &near),
        CodeStep::Lookup(asked) if asked == near
    ));
    assert!(matches!(
        load_account_code::<Vec<u8>>(None, &[0u8; 32]),
        CodeStep::Lookup(asked) if asked == [0u8; 32]
    ));
}

#[test]
fn looked_up_code_treats_failure_as_no_code() {
    assert_eq!(looked_up_code::<Vec<u8>, String>(Ok(vec![1, 2, 3])), Some(vec![1, 2, 3]));
    assert_eq!(looked_up_code::<Vec<u8>, String>(Err("missing".to_string())), None);
}

#[test]
fn decimal_string_matches_std() {
    for n in [0usize, 1, 9, 10, 11, 99, 100, 101, 128, 288, 1000, 65535, 4294967295, usize::MAX]
    {
        assert_eq!(decimal_string(n), n.to_string());
    }
}
