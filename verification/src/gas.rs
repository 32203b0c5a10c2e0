use vstd::prelude::*;

use crate::opcode::OpCode;

verus! {

/// Static gas-cost classification tier of an instruction, ordered from
/// cheapest to most expensive: `Zero < Base < VeryLow < Low < Mid < High <
/// Ext < Special`. The tier is a dispatch key: an external gas accountant
/// indexes a fixed gas-price table by the tier's ordinal, so the ordinal is
/// part of the public contract. `Special` marks instructions whose true cost
/// is computed dynamically elsewhere.
#[derive(Debug, PartialEq, Eq, Structural, Clone, Copy)]
pub enum GasPriceTier {
    Zero,
    Base,
    VeryLow,
    Low,
    Mid,
    High,
    Ext,
    Special,
}

impl GasPriceTier {
    /// Ordinal of this tier: its position in the fixed tier order, in
    /// `[0, 7]`.
    pub open spec fn spec_idx(self) -> usize {
        match self {
            GasPriceTier::Zero => 0,
            GasPriceTier::Base => 1,
            GasPriceTier::VeryLow => 2,
            GasPriceTier::Low => 3,
            GasPriceTier::Mid => 4,
            GasPriceTier::High => 5,
            GasPriceTier::Ext => 6,
            GasPriceTier::Special => 7,
        }
    }

    /// Ordinal of this tier, for indexing an external gas-price table.
    pub fn idx(&self) -> (r: usize)
        ensures
            r == self.spec_idx(),
            r <= 7,
    {
        match self {
            GasPriceTier::Zero => 0,
            GasPriceTier::Base => 1,
            GasPriceTier::VeryLow => 2,
            GasPriceTier::Low => 3,
            GasPriceTier::Mid => 4,
            GasPriceTier::High => 5,
            GasPriceTier::Ext => 6,
            GasPriceTier::Special => 7,
        }
    }
}

/// Law: the eight tier ordinals are distinct integers in `[0, 7]`, and the
/// ordinal order follows the tier order, with `Zero` first and `Special`
/// last.
pub proof fn lemma_tier_ordinals_distinct(a: GasPriceTier, b: GasPriceTier)
    ensures
        a.spec_idx() <= 7,
        a != b ==> a.spec_idx() != b.spec_idx(),
        GasPriceTier::Zero.spec_idx() < GasPriceTier::Special.spec_idx(),
{
}

impl OpCode {
    /// The static gas tier of this instruction, under the one fixed gas
    /// schedule of the registry.
    pub open spec fn spec_tier(self) -> GasPriceTier {
        match self {
            OpCode::STOP => GasPriceTier::Zero,
            OpCode::ADD => GasPriceTier::VeryLow,
            OpCode::MUL => GasPriceTier::Low,
            OpCode::SUB => GasPriceTier::VeryLow,
            OpCode::DIV => GasPriceTier::Low,
            OpCode::SDIV => GasPriceTier::Low,
            OpCode::MOD => GasPriceTier::Low,
            OpCode::SMOD => GasPriceTier::Low,
            OpCode::ADDMOD => GasPriceTier::Mid,
            OpCode::MULMOD => GasPriceTier::Mid,
            OpCode::EXP => GasPriceTier::Special,
            OpCode::SIGNEXTEND => GasPriceTier::Low,
            OpCode::LT => GasPriceTier::VeryLow,
            OpCode::GT => GasPriceTier::VeryLow,
            OpCode::SLT => GasPriceTier::VeryLow,
            OpCode::SGT => GasPriceTier::VeryLow,
            OpCode::EQ => GasPriceTier::VeryLow,
            OpCode::ISZERO => GasPriceTier::VeryLow,
            OpCode::AND => GasPriceTier::VeryLow,
            OpCode::OR => GasPriceTier::VeryLow,
            OpCode::XOR => GasPriceTier::VeryLow,
            OpCode::NOT => GasPriceTier::VeryLow,
            OpCode::BYTE => GasPriceTier::VeryLow,
            OpCode::SHL => GasPriceTier::VeryLow,
            OpCode::SHR => GasPriceTier::VeryLow,
            OpCode::SAR => GasPriceTier::VeryLow,
            OpCode::SHA3 => GasPriceTier::Special,
            OpCode::ADDRESS => GasPriceTier::Base,
            OpCode::BALANCE => GasPriceTier::Special,
            OpCode::ORIGIN => GasPriceTier::Base,
            OpCode::CALLER => GasPriceTier::Base,
            OpCode::CALLVALUE => GasPriceTier::Base,
            OpCode::CALLDATALOAD => GasPriceTier::VeryLow,
            OpCode::CALLDATASIZE => GasPriceTier::Base,
            OpCode::CALLDATACOPY => GasPriceTier::VeryLow,
            OpCode::CODESIZE => GasPriceTier::Base,
            OpCode::CODECOPY => GasPriceTier::VeryLow,
            OpCode::GASPRICE => GasPriceTier::Base,
            OpCode::EXTCODESIZE => GasPriceTier::Special,
            OpCode::EXTCODECOPY => GasPriceTier::Special,
            OpCode::RETURNDATASIZE => GasPriceTier::Base,
            OpCode::RETURNDATACOPY => GasPriceTier::VeryLow,
            OpCode::EXTCODEHASH => GasPriceTier::Special,
            OpCode::BLOCKHASH => GasPriceTier::Ext,
            OpCode::COINBASE => GasPriceTier::Base,
            OpCode::TIMESTAMP => GasPriceTier::Base,
            OpCode::NUMBER => GasPriceTier::Base,
            OpCode::DIFFICULTY => GasPriceTier::Base,
            OpCode::GASLIMIT => GasPriceTier::Base,
            OpCode::POP => GasPriceTier::Base,
            OpCode::MLOAD => GasPriceTier::VeryLow,
            OpCode::MSTORE => GasPriceTier::VeryLow,
            OpCode::MSTORE8 => GasPriceTier::VeryLow,
            OpCode::SLOAD => GasPriceTier::Special,
            OpCode::SSTORE => GasPriceTier::Special,
            OpCode::JUMP => GasPriceTier::Mid,
            OpCode::JUMPI => GasPriceTier::High,
            OpCode::PC => GasPriceTier::Base,
            OpCode::MSIZE => GasPriceTier::Base,
            OpCode::GAS => GasPriceTier::Base,
            OpCode::JUMPDEST => GasPriceTier::Special,
            OpCode::PUSH1 => GasPriceTier::VeryLow,
            OpCode::PUSH2 => GasPriceTier::VeryLow,
            OpCode::PUSH3 => GasPriceTier::VeryLow,
            OpCode::PUSH4 => GasPriceTier::VeryLow,
            OpCode::PUSH5 => GasPriceTier::VeryLow,
            OpCode::PUSH6 => GasPriceTier::VeryLow,
            OpCode::PUSH7 => GasPriceTier::VeryLow,
            OpCode::PUSH8 => GasPriceTier::VeryLow,
            OpCode::PUSH9 => GasPriceTier::VeryLow,
            OpCode::PUSH10 => GasPriceTier::VeryLow,
            OpCode::PUSH11 => GasPriceTier::VeryLow,
            OpCode::PUSH12 => GasPriceTier::VeryLow,
            OpCode::PUSH13 => GasPriceTier::VeryLow,
            OpCode::PUSH14 => GasPriceTier::VeryLow,
            OpCode::PUSH15 => GasPriceTier::VeryLow,
            OpCode::PUSH16 => GasPriceTier::VeryLow,
            OpCode::PUSH17 => GasPriceTier::VeryLow,
            OpCode::PUSH18 => GasPriceTier::VeryLow,
            OpCode::PUSH19 => GasPriceTier::VeryLow,
            OpCode::PUSH20 => GasPriceTier::VeryLow,
            OpCode::PUSH21 => GasPriceTier::VeryLow,
            OpCode::PUSH22 => GasPriceTier::VeryLow,
            OpCode::PUSH23 => GasPriceTier::VeryLow,
            OpCode::PUSH24 => GasPriceTier::VeryLow,
            OpCode::PUSH25 => GasPriceTier::VeryLow,
            OpCode::PUSH26 => GasPriceTier::VeryLow,
            OpCode::PUSH27 => GasPriceTier::VeryLow,
            OpCode::PUSH28 => GasPriceTier::VeryLow,
            OpCode::PUSH29 => GasPriceTier::VeryLow,
            OpCode::PUSH30 => GasPriceTier::VeryLow,
            OpCode::PUSH31 => GasPriceTier::VeryLow,
            OpCode::PUSH32 => GasPriceTier::VeryLow,
            OpCode::DUP1 => GasPriceTier::VeryLow,
            OpCode::DUP2 => GasPriceTier::VeryLow,
            OpCode::DUP3 => GasPriceTier::VeryLow,
            OpCode::DUP4 => GasPriceTier::VeryLow,
            OpCode::DUP5 => GasPriceTier::VeryLow,
            OpCode::DUP6 => GasPriceTier::VeryLow,
            OpCode::DUP7 => GasPriceTier::VeryLow,
            OpCode::DUP8 => GasPriceTier::VeryLow,
            OpCode::DUP9 => GasPriceTier::VeryLow,
            OpCode::DUP10 => GasPriceTier::VeryLow,
            OpCode::DUP11 => GasPriceTier::VeryLow,
            OpCode::DUP12 => GasPriceTier::VeryLow,
            OpCode::DUP13 => GasPriceTier::VeryLow,
            OpCode::DUP14 => GasPriceTier::VeryLow,
            OpCode::DUP15 => GasPriceTier::VeryLow,
            OpCode::DUP16 => GasPriceTier::VeryLow,
            OpCode::SWAP1 => GasPriceTier::VeryLow,
            OpCode::SWAP2 => GasPriceTier::VeryLow,
            OpCode::SWAP3 => GasPriceTier::VeryLow,
            OpCode::SWAP4 => GasPriceTier::VeryLow,
            OpCode::SWAP5 => GasPriceTier::VeryLow,
            OpCode::SWAP6 => GasPriceTier::VeryLow,
            OpCode::SWAP7 => GasPriceTier::VeryLow,
            OpCode::SWAP8 => GasPriceTier::VeryLow,
            OpCode::SWAP9 => GasPriceTier::VeryLow,
            OpCode::SWAP10 => GasPriceTier::VeryLow,
            OpCode::SWAP11 => GasPriceTier::VeryLow,
            OpCode::SWAP12 => GasPriceTier::VeryLow,
            OpCode::SWAP13 => GasPriceTier::VeryLow,
            OpCode::SWAP14 => GasPriceTier::VeryLow,
            OpCode::SWAP15 => GasPriceTier::VeryLow,
            OpCode::SWAP16 => GasPriceTier::VeryLow,
            OpCode::LOG0 => GasPriceTier::Special,
            OpCode::LOG1 => GasPriceTier::Special,
            OpCode::LOG2 => GasPriceTier::Special,
            OpCode::LOG3 => GasPriceTier::Special,
            OpCode::LOG4 => GasPriceTier::Special,
            OpCode::CREATE => GasPriceTier::Special,
            OpCode::CALL => GasPriceTier::Special,
            OpCode::CALLCODE => GasPriceTier::Special,
            OpCode::RETURN => GasPriceTier::Zero,
            OpCode::DELEGATECALL => GasPriceTier::Special,
            OpCode::CREATE2 => GasPriceTier::Special,
            OpCode::REVERT => GasPriceTier::Zero,
            OpCode::STATICCALL => GasPriceTier::Special,
            OpCode::SUICIDE => GasPriceTier::Special,
        }
    }

    /// Classifies this instruction into its static gas tier. Total and
    /// deterministic: the result is a function of the instruction alone,
    /// so repeated calls on the same instruction agree, and every
    /// instruction has exactly one tier.
    pub fn gas_price_tier(&self) -> (r: GasPriceTier)
        ensures
            r == self.spec_tier(),
    {
        match self {
            OpCode::STOP => GasPriceTier::Zero,
            OpCode::ADD => GasPriceTier::VeryLow,
            OpCode::MUL => GasPriceTier::Low,
            OpCode::SUB => GasPriceTier::VeryLow,
            OpCode::DIV => GasPriceTier::Low,
            OpCode::SDIV => GasPriceTier::Low,
            OpCode::MOD => GasPriceTier::Low,
            OpCode::SMOD => GasPriceTier::Low,
            OpCode::ADDMOD => GasPriceTier::Mid,
            OpCode::MULMOD => GasPriceTier::Mid,
            OpCode::EXP => GasPriceTier::Special,
            OpCode::SIGNEXTEND => GasPriceTier::Low,
            OpCode::LT => GasPriceTier::VeryLow,
            OpCode::GT => GasPriceTier::VeryLow,
            OpCode::SLT => GasPriceTier::VeryLow,
            OpCode::SGT => GasPriceTier::VeryLow,
            OpCode::EQ => GasPriceTier::VeryLow,
            OpCode::ISZERO => GasPriceTier::VeryLow,
            OpCode::AND => GasPriceTier::VeryLow,
            OpCode::OR => GasPriceTier::VeryLow,
            OpCode::XOR => GasPriceTier::VeryLow,
            OpCode::NOT => GasPriceTier::VeryLow,
            OpCode::BYTE => GasPriceTier::VeryLow,
            OpCode::SHL => GasPriceTier::VeryLow,
            OpCode::SHR => GasPriceTier::VeryLow,
            OpCode::SAR => GasPriceTier::VeryLow,
            OpCode::SHA3 => GasPriceTier::Special,
            OpCode::ADDRESS => GasPriceTier::Base,
            OpCode::BALANCE => GasPriceTier::Special,
            OpCode::ORIGIN => GasPriceTier::Base,
            OpCode::CALLER => GasPriceTier::Base,
            OpCode::CALLVALUE => GasPriceTier::Base,
            OpCode::CALLDATALOAD => GasPriceTier::VeryLow,
            OpCode::CALLDATASIZE => GasPriceTier::Base,
            OpCode::CALLDATACOPY => GasPriceTier::VeryLow,
            OpCode::CODESIZE => GasPriceTier::Base,
            OpCode::CODECOPY => GasPriceTier::VeryLow,
            OpCode::GASPRICE => GasPriceTier::Base,
            OpCode::EXTCODESIZE => GasPriceTier::Special,
            OpCode::EXTCODECOPY => GasPriceTier::Special,
            OpCode::RETURNDATASIZE => GasPriceTier::Base,
            OpCode::RETURNDATACOPY => GasPriceTier::VeryLow,
            OpCode::EXTCODEHASH => GasPriceTier::Special,
            OpCode::BLOCKHASH => GasPriceTier::Ext,
            OpCode::COINBASE => GasPriceTier::Base,
            OpCode::TIMESTAMP => GasPriceTier::Base,
            OpCode::NUMBER => GasPriceTier::Base,
            OpCode::DIFFICULTY => GasPriceTier::Base,
            OpCode::GASLIMIT => GasPriceTier::Base,
            OpCode::POP => GasPriceTier::Base,
            OpCode::MLOAD => GasPriceTier::VeryLow,
            OpCode::MSTORE => GasPriceTier::VeryLow,
            OpCode::MSTORE8 => GasPriceTier::VeryLow,
            OpCode::SLOAD => GasPriceTier::Special,
            OpCode::SSTORE => GasPriceTier::Special,
            OpCode::JUMP => GasPriceTier::Mid,
            OpCode::JUMPI => GasPriceTier::High,
            OpCode::PC => GasPriceTier::Base,
            OpCode::MSIZE => GasPriceTier::Base,
            OpCode::GAS => GasPriceTier::Base,
            OpCode::JUMPDEST => GasPriceTier::Special,
            OpCode::PUSH1 => GasPriceTier::VeryLow,
            OpCode::PUSH2 => GasPriceTier::VeryLow,
            OpCode::PUSH3 => GasPriceTier::VeryLow,
            OpCode::PUSH4 => GasPriceTier::VeryLow,
            OpCode::PUSH5 => GasPriceTier::VeryLow,
            OpCode::PUSH6 => GasPriceTier::VeryLow,
            OpCode::PUSH7 => GasPriceTier::VeryLow,
            OpCode::PUSH8 => GasPriceTier::VeryLow,
            OpCode::PUSH9 => GasPriceTier::VeryLow,
            OpCode::PUSH10 => GasPriceTier::VeryLow,
            OpCode::PUSH11 => GasPriceTier::VeryLow,
            OpCode::PUSH12 => GasPriceTier::VeryLow,
            OpCode::PUSH13 => GasPriceTier::VeryLow,
            OpCode::PUSH14 => GasPriceTier::VeryLow,
            OpCode::PUSH15 => GasPriceTier::VeryLow,
            OpCode::PUSH16 => GasPriceTier::VeryLow,
            OpCode::PUSH17 => GasPriceTier::VeryLow,
            OpCode::PUSH18 => GasPriceTier::VeryLow,
            OpCode::PUSH19 => GasPriceTier::VeryLow,
            OpCode::PUSH20 => GasPriceTier::VeryLow,
            OpCode::PUSH21 => GasPriceTier::VeryLow,
            OpCode::PUSH22 => GasPriceTier::VeryLow,
            OpCode::PUSH23 => GasPriceTier::VeryLow,
            OpCode::PUSH24 => GasPriceTier::VeryLow,
            OpCode::PUSH25 => GasPriceTier::VeryLow,
            OpCode::PUSH26 => GasPriceTier::VeryLow,
            OpCode::PUSH27 => GasPriceTier::VeryLow,
            OpCode::PUSH28 => GasPriceTier::VeryLow,
            OpCode::PUSH29 => GasPriceTier::VeryLow,
            OpCode::PUSH30 => GasPriceTier::VeryLow,
            OpCode::PUSH31 => GasPriceTier::VeryLow,
            OpCode::PUSH32 => GasPriceTier::VeryLow,
            OpCode::DUP1 => GasPriceTier::VeryLow,
            OpCode::DUP2 => GasPriceTier::VeryLow,
            OpCode::DUP3 => GasPriceTier::VeryLow,
            OpCode::DUP4 => GasPriceTier::VeryLow,
            OpCode::DUP5 => GasPriceTier::VeryLow,
            OpCode::DUP6 => GasPriceTier::VeryLow,
            OpCode::DUP7 => GasPriceTier::VeryLow,
            OpCode::DUP8 => GasPriceTier::VeryLow,
            OpCode::DUP9 => GasPriceTier::VeryLow,
            OpCode::DUP10 => GasPriceTier::VeryLow,
            OpCode::DUP11 => GasPriceTier::VeryLow,
            OpCode::DUP12 => GasPriceTier::VeryLow,
            OpCode::DUP13 => GasPriceTier::VeryLow,
            OpCode::DUP14 => GasPriceTier::VeryLow,
            OpCode::DUP15 => GasPriceTier::VeryLow,
            OpCode::DUP16 => GasPriceTier::VeryLow,
            OpCode::SWAP1 => GasPriceTier::VeryLow,
            OpCode::SWAP2 => GasPriceTier::VeryLow,
            OpCode::SWAP3 => GasPriceTier::VeryLow,
            OpCode::SWAP4 => GasPriceTier::VeryLow,
            OpCode::SWAP5 => GasPriceTier::VeryLow,
            OpCode::SWAP6 => GasPriceTier::VeryLow,
            OpCode::SWAP7 => GasPriceTier::VeryLow,
            OpCode::SWAP8 => GasPriceTier::VeryLow,
            OpCode::SWAP9 => GasPriceTier::VeryLow,
            OpCode::SWAP10 => GasPriceTier::VeryLow,
            OpCode::SWAP11 => GasPriceTier::VeryLow,
            OpCode::SWAP12 => GasPriceTier::VeryLow,
            OpCode::SWAP13 => GasPriceTier::VeryLow,
            OpCode::SWAP14 => GasPriceTier::VeryLow,
            OpCode::SWAP15 => GasPriceTier::VeryLow,
            OpCode::SWAP16 => GasPriceTier::VeryLow,
            OpCode::LOG0 => GasPriceTier::Special,
            OpCode::LOG1 => GasPriceTier::Special,
            OpCode::LOG2 => GasPriceTier::Special,
            OpCode::LOG3 => GasPriceTier::Special,
            OpCode::LOG4 => GasPriceTier::Special,
            OpCode::CREATE => GasPriceTier::Special,
            OpCode::CALL => GasPriceTier::Special,
            OpCode::CALLCODE => GasPriceTier::Special,
            OpCode::RETURN => GasPriceTier::Zero,
            OpCode::DELEGATECALL => GasPriceTier::Special,
            OpCode::CREATE2 => GasPriceTier::Special,
            OpCode::REVERT => GasPriceTier::Zero,
            OpCode::STATICCALL => GasPriceTier::Special,
            OpCode::SUICIDE => GasPriceTier::Special,
        }
    }
}


} // verus!
