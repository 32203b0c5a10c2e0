use evm::error::RegistryError;
use evm::gas::GasPriceTier;
use evm::opcode::OpCode;

/// Every assigned code round-trips: `code_of(decode(c)) == c`, and encoding
/// the mnemonic of the decoded instruction yields the same instruction.
#[test]
fn round_trip_all_codes() {
    for c in 0u16..=255 {
        let c = c as u8;
        if let Ok(op) = OpCode::decode(c) {
            assert_eq!(op.code_of(), c);
            let again = OpCode::encode(op.mnemonic_of())
                .expect("every mnemonic of a decoded instruction must encode");
            assert_eq!(again, op);
            assert_eq!(again.code_of(), c);
        }
    }
}

/// The registry assigns exactly 139 codes out of the 256-value byte space.
#[test]
fn assigned_code_count() {
    let mut count = 0;
    for c in 0u16..=255 {
        if OpCode::decode(c as u8).is_ok() {
            count += 1;
        }
    }
    assert_eq!(count, 139);
}

/// No two assigned instructions share a mnemonic.
#[test]
fn mnemonics_are_unique() {
    let mut seen: Vec<&str> = Vec::new();
    for c in 0u16..=255 {
        if let Ok(op) = OpCode::decode(c as u8) {
            let m = op.mnemonic_of();
            assert!(!seen.contains(&m), "duplicate mnemonic {m}");
            seen.push(m);
        }
    }
    assert_eq!(seen.len(), 139);
}

/// Gap bytes are rejected with `InvalidOpcode`, carrying the rejected byte.
#[test]
fn gap_rejection() {
    for c in [0x0cu8, 0x1e, 0x5c, 0xfe] {
        assert_eq!(OpCode::decode(c), Err(RegistryError::InvalidOpcode(c)));
    }
}

/// Every gap region of the code space is rejected, end to end.
#[test]
fn gap_regions_rejected() {
    let gaps = [
        (0x0cu8, 0x0fu8),
        (0x1e, 0x1f),
        (0x21, 0x2f),
        (0x46, 0x4f),
        (0x5c, 0x5f),
        (0xa5, 0xef),
        (0xf6, 0xf9),
        (0xfb, 0xfc),
        (0xfe, 0xfe),
    ];
    for (lo, hi) in gaps {
        for c in lo..=hi {
            assert_eq!(OpCode::decode(c), Err(RegistryError::InvalidOpcode(c)));
        }
    }
}

/// Text that names no instruction is rejected with `UnknownMnemonic`,
/// carrying the rejected text; matching is exact and case-sensitive.
#[test]
fn unknown_mnemonic_rejection() {
    assert_eq!(
        OpCode::encode("NOPE"),
        Err(RegistryError::UnknownMnemonic("NOPE".to_string()))
    );
    assert_eq!(
        OpCode::encode("add"),
        Err(RegistryError::UnknownMnemonic("add".to_string()))
    );
    assert_eq!(
        OpCode::encode("PUSH33"),
        Err(RegistryError::UnknownMnemonic("PUSH33".to_string()))
    );
    assert_eq!(
        OpCode::encode(""),
        Err(RegistryError::UnknownMnemonic(String::new()))
    );
    assert_eq!(
        OpCode::encode("ADD "),
        Err(RegistryError::UnknownMnemonic("ADD ".to_string()))
    );
}

/// Concrete code-to-mnemonic-and-tier mappings.
#[test]
fn concrete_mappings() {
    let cases: [(u8, &str, GasPriceTier); 5] = [
        (0x01, "ADD", GasPriceTier::VeryLow),
        (0x54, "SLOAD", GasPriceTier::Special),
        (0x57, "JUMPI", GasPriceTier::High),
        (0x60, "PUSH1", GasPriceTier::VeryLow),
        (0xf3, "RETURN", GasPriceTier::Zero),
    ];
    for (code, mnemonic, tier) in cases {
        let op = OpCode::decode(code).expect("assigned code must decode");
        assert_eq!(op.mnemonic_of(), mnemonic);
        assert_eq!(op.gas_price_tier(), tier);
    }
}

/// Spot checks of the fixed gas schedule across all eight tiers.
#[test]
fn gas_schedule_spot_checks() {
    let cases: [(OpCode, GasPriceTier); 12] = [
        (OpCode::STOP, GasPriceTier::Zero),
        (OpCode::REVERT, GasPriceTier::Zero),
        (OpCode::POP, GasPriceTier::Base),
        (OpCode::TIMESTAMP, GasPriceTier::Base),
        (OpCode::SUB, GasPriceTier::VeryLow),
        (OpCode::MUL, GasPriceTier::Low),
        (OpCode::SIGNEXTEND, GasPriceTier::Low),
        (OpCode::ADDMOD, GasPriceTier::Mid),
        (OpCode::JUMP, GasPriceTier::Mid),
        (OpCode::BLOCKHASH, GasPriceTier::Ext),
        (OpCode::EXP, GasPriceTier::Special),
        (OpCode::SUICIDE, GasPriceTier::Special),
    ];
    for (op, tier) in cases {
        assert_eq!(op.gas_price_tier(), tier);
    }
}

/// Repeated classification of the same instruction always agrees.
#[test]
fn gas_tier_deterministic() {
    for c in 0u16..=255 {
        if let Ok(op) = OpCode::decode(c as u8) {
            let first = op.gas_price_tier();
            let second = op.gas_price_tier();
            assert_eq!(first, second);
            assert_eq!(first.idx(), second.idx());
        }
    }
}

/// The eight tier ordinals are the distinct integers 0 through 7, in tier
/// order, with `Zero` below `Special`.
#[test]
fn tier_ordinals() {
    let tiers = [
        GasPriceTier::Zero,
        GasPriceTier::Base,
        GasPriceTier::VeryLow,
        GasPriceTier::Low,
        GasPriceTier::Mid,
        GasPriceTier::High,
        GasPriceTier::Ext,
        GasPriceTier::Special,
    ];
    for (expected, tier) in tiers.iter().enumerate() {
        assert_eq!(tier.idx(), expected);
    }
    assert!(GasPriceTier::Zero.idx() < GasPriceTier::Special.idx());
}

/// Encoding a known mnemonic finds the instruction with the matching code.
#[test]
fn encode_known_mnemonics() {
    let cases: [(&str, u8); 8] = [
        ("STOP", 0x00),
        ("SHA3", 0x20),
        ("SSTORE", 0x55),
        ("PUSH32", 0x7f),
        ("DUP16", 0x8f),
        ("SWAP16", 0x9f),
        ("LOG4", 0xa4),
        ("SUICIDE", 0xff),
    ];
    for (mnemonic, code) in cases {
        let op = OpCode::encode(mnemonic).expect("defined mnemonic must encode");
        assert_eq!(op.code_of(), code);
        assert_eq!(op.mnemonic_of(), mnemonic);
    }
}
