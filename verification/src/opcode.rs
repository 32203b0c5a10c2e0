use vstd::prelude::*;
use vstd::string::StrSliceExecFns;

use crate::error::RegistryError;

verus! {

/// One instruction of the virtual machine.
///
/// The set of variants is the closed registry: a value of this type exists
/// only for an assigned instruction, so every accessor on it is total.
/// Each variant has a unique one-byte code (`spec_code`) and a unique
/// uppercase mnemonic equal to the variant name (`spec_mnemonic`).
#[allow(non_camel_case_types)]
#[derive(Debug, PartialEq, Eq, Structural, PartialOrd, Ord, Clone, Copy)]
pub enum OpCode {
    STOP,
    ADD,
    MUL,
    SUB,
    DIV,
    SDIV,
    MOD,
    SMOD,
    ADDMOD,
    MULMOD,
    EXP,
    SIGNEXTEND,
    LT,
    GT,
    SLT,
    SGT,
    EQ,
    ISZERO,
    AND,
    OR,
    XOR,
    NOT,
    BYTE,
    SHL,
    SHR,
    SAR,
    SHA3,
    ADDRESS,
    BALANCE,
    ORIGIN,
    CALLER,
    CALLVALUE,
    CALLDATALOAD,
    CALLDATASIZE,
    CALLDATACOPY,
    CODESIZE,
    CODECOPY,
    GASPRICE,
    EXTCODESIZE,
    EXTCODECOPY,
    RETURNDATASIZE,
    RETURNDATACOPY,
    EXTCODEHASH,
    BLOCKHASH,
    COINBASE,
    TIMESTAMP,
    NUMBER,
    DIFFICULTY,
    GASLIMIT,
    POP,
    MLOAD,
    MSTORE,
    MSTORE8,
    SLOAD,
    SSTORE,
    JUMP,
    JUMPI,
    PC,
    MSIZE,
    GAS,
    JUMPDEST,
    PUSH1,
    PUSH2,
    PUSH3,
    PUSH4,
    PUSH5,
    PUSH6,
    PUSH7,
    PUSH8,
    PUSH9,
    PUSH10,
    PUSH11,
    PUSH12,
    PUSH13,
    PUSH14,
    PUSH15,
    PUSH16,
    PUSH17,
    PUSH18,
    PUSH19,
    PUSH20,
    PUSH21,
    PUSH22,
    PUSH23,
    PUSH24,
    PUSH25,
    PUSH26,
    PUSH27,
    PUSH28,
    PUSH29,
    PUSH30,
    PUSH31,
    PUSH32,
    DUP1,
    DUP2,
    DUP3,
    DUP4,
    DUP5,
    DUP6,
    DUP7,
    DUP8,
    DUP9,
    DUP10,
    DUP11,
    DUP12,
    DUP13,
    DUP14,
    DUP15,
    DUP16,
    SWAP1,
    SWAP2,
    SWAP3,
    SWAP4,
    SWAP5,
    SWAP6,
    SWAP7,
    SWAP8,
    SWAP9,
    SWAP10,
    SWAP11,
    SWAP12,
    SWAP13,
    SWAP14,
    SWAP15,
    SWAP16,
    LOG0,
    LOG1,
    LOG2,
    LOG3,
    LOG4,
    CREATE,
    CALL,
    CALLCODE,
    RETURN,
    DELEGATECALL,
    CREATE2,
    REVERT,
    STATICCALL,
    SUICIDE,
}

/// Holds exactly of the bytes that are the code of some instruction: the
/// assigned regions of the one-byte code space. Bytes outside these
/// regions are gaps and decode to an error.
pub open spec fn is_assigned(code: u8) -> bool {
    ||| code <= 0x0b
    ||| (0x10 <= code && code <= 0x1d)
    ||| code == 0x20
    ||| (0x30 <= code && code <= 0x45)
    ||| (0x50 <= code && code <= 0x5b)
    ||| (0x60 <= code && code <= 0xa4)
    ||| (0xf0 <= code && code <= 0xf5)
    ||| code == 0xfa
    ||| code == 0xfd
    ||| code == 0xff
}

impl OpCode {
    /// The one-byte code of this instruction.
    pub open spec fn spec_code(self) -> u8 {
        match self {
            OpCode::STOP => 0x00,
            OpCode::ADD => 0x01,
            OpCode::MUL => 0x02,
            OpCode::SUB => 0x03,
            OpCode::DIV => 0x04,
            OpCode::SDIV => 0x05,
            OpCode::MOD => 0x06,
            OpCode::SMOD => 0x07,
            OpCode::ADDMOD => 0x08,
            OpCode::MULMOD => 0x09,
            OpCode::EXP => 0x0a,
            OpCode::SIGNEXTEND => 0x0b,
            OpCode::LT => 0x10,
            OpCode::GT => 0x11,
            OpCode::SLT => 0x12,
            OpCode::SGT => 0x13,
            OpCode::EQ => 0x14,
            OpCode::ISZERO => 0x15,
            OpCode::AND => 0x16,
            OpCode::OR => 0x17,
            OpCode::XOR => 0x18,
            OpCode::NOT => 0x19,
            OpCode::BYTE => 0x1a,
            OpCode::SHL => 0x1b,
            OpCode::SHR => 0x1c,
            OpCode::SAR => 0x1d,
            OpCode::SHA3 => 0x20,
            OpCode::ADDRESS => 0x30,
            OpCode::BALANCE => 0x31,
            OpCode::ORIGIN => 0x32,
            OpCode::CALLER => 0x33,
            OpCode::CALLVALUE => 0x34,
            OpCode::CALLDATALOAD => 0x35,
            OpCode::CALLDATASIZE => 0x36,
            OpCode::CALLDATACOPY => 0x37,
            OpCode::CODESIZE => 0x38,
            OpCode::CODECOPY => 0x39,
            OpCode::GASPRICE => 0x3a,
            OpCode::EXTCODESIZE => 0x3b,
            OpCode::EXTCODECOPY => 0x3c,
            OpCode::RETURNDATASIZE => 0x3d,
            OpCode::RETURNDATACOPY => 0x3e,
            OpCode::EXTCODEHASH => 0x3f,
            OpCode::BLOCKHASH => 0x40,
            OpCode::COINBASE => 0x41,
            OpCode::TIMESTAMP => 0x42,
            OpCode::NUMBER => 0x43,
            OpCode::DIFFICULTY => 0x44,
            OpCode::GASLIMIT => 0x45,
            OpCode::POP => 0x50,
            OpCode::MLOAD => 0x51,
            OpCode::MSTORE => 0x52,
            OpCode::MSTORE8 => 0x53,
            OpCode::SLOAD => 0x54,
            OpCode::SSTORE => 0x55,
            OpCode::JUMP => 0x56,
            OpCode::JUMPI => 0x57,
            OpCode::PC => 0x58,
            OpCode::MSIZE => 0x59,
            OpCode::GAS => 0x5a,
            OpCode::JUMPDEST => 0x5b,
            OpCode::PUSH1 => 0x60,
            OpCode::PUSH2 => 0x61,
            OpCode::PUSH3 => 0x62,
            OpCode::PUSH4 => 0x63,
            OpCode::PUSH5 => 0x64,
            OpCode::PUSH6 => 0x65,
            OpCode::PUSH7 => 0x66,
            OpCode::PUSH8 => 0x67,
            OpCode::PUSH9 => 0x68,
            OpCode::PUSH10 => 0x69,
            OpCode::PUSH11 => 0x6a,
            OpCode::PUSH12 => 0x6b,
            OpCode::PUSH13 => 0x6c,
            OpCode::PUSH14 => 0x6d,
            OpCode::PUSH15 => 0x6e,
            OpCode::PUSH16 => 0x6f,
            OpCode::PUSH17 => 0x70,
            OpCode::PUSH18 => 0x71,
            OpCode::PUSH19 => 0x72,
            OpCode::PUSH20 => 0x73,
            OpCode::PUSH21 => 0x74,
            OpCode::PUSH22 => 0x75,
            OpCode::PUSH23 => 0x76,
            OpCode::PUSH24 => 0x77,
            OpCode::PUSH25 => 0x78,
            OpCode::PUSH26 => 0x79,
            OpCode::PUSH27 => 0x7a,
            OpCode::PUSH28 => 0x7b,
            OpCode::PUSH29 => 0x7c,
            OpCode::PUSH30 => 0x7d,
            OpCode::PUSH31 => 0x7e,
            OpCode::PUSH32 => 0x7f,
            OpCode::DUP1 => 0x80,
            OpCode::DUP2 => 0x81,
            OpCode::DUP3 => 0x82,
            OpCode::DUP4 => 0x83,
            OpCode::DUP5 => 0x84,
            OpCode::DUP6 => 0x85,
            OpCode::DUP7 => 0x86,
            OpCode::DUP8 => 0x87,
            OpCode::DUP9 => 0x88,
            OpCode::DUP10 => 0x89,
            OpCode::DUP11 => 0x8a,
            OpCode::DUP12 => 0x8b,
            OpCode::DUP13 => 0x8c,
            OpCode::DUP14 => 0x8d,
            OpCode::DUP15 => 0x8e,
            OpCode::DUP16 => 0x8f,
            OpCode::SWAP1 => 0x90,
            OpCode::SWAP2 => 0x91,
            OpCode::SWAP3 => 0x92,
            OpCode::SWAP4 => 0x93,
            OpCode::SWAP5 => 0x94,
            OpCode::SWAP6 => 0x95,
            OpCode::SWAP7 => 0x96,
            OpCode::SWAP8 => 0x97,
            OpCode::SWAP9 => 0x98,
            OpCode::SWAP10 => 0x99,
            OpCode::SWAP11 => 0x9a,
            OpCode::SWAP12 => 0x9b,
            OpCode::SWAP13 => 0x9c,
            OpCode::SWAP14 => 0x9d,
            OpCode::SWAP15 => 0x9e,
            OpCode::SWAP16 => 0x9f,
            OpCode::LOG0 => 0xa0,
            OpCode::LOG1 => 0xa1,
            OpCode::LOG2 => 0xa2,
            OpCode::LOG3 => 0xa3,
            OpCode::LOG4 => 0xa4,
            OpCode::CREATE => 0xf0,
            OpCode::CALL => 0xf1,
            OpCode::CALLCODE => 0xf2,
            OpCode::RETURN => 0xf3,
            OpCode::DELEGATECALL => 0xf4,
            OpCode::CREATE2 => 0xf5,
            OpCode::REVERT => 0xfd,
            OpCode::STATICCALL => 0xfa,
            OpCode::SUICIDE => 0xff,
        }
    }

    /// The one-byte code of this instruction, inverse-consistent with
    /// `decode`.
    pub fn code_of(&self) -> (r: u8)
        ensures
            r == self.spec_code(),
    {
        match self {
            OpCode::STOP => 0x00,
            OpCode::ADD => 0x01,
            OpCode::MUL => 0x02,
            OpCode::SUB => 0x03,
            OpCode::DIV => 0x04,
            OpCode::SDIV => 0x05,
            OpCode::MOD => 0x06,
            OpCode::SMOD => 0x07,
            OpCode::ADDMOD => 0x08,
            OpCode::MULMOD => 0x09,
            OpCode::EXP => 0x0a,
            OpCode::SIGNEXTEND => 0x0b,
            OpCode::LT => 0x10,
            OpCode::GT => 0x11,
            OpCode::SLT => 0x12,
            OpCode::SGT => 0x13,
            OpCode::EQ => 0x14,
            OpCode::ISZERO => 0x15,
            OpCode::AND => 0x16,
            OpCode::OR => 0x17,
            OpCode::XOR => 0x18,
            OpCode::NOT => 0x19,
            OpCode::BYTE => 0x1a,
            OpCode::SHL => 0x1b,
            OpCode::SHR => 0x1c,
            OpCode::SAR => 0x1d,
            OpCode::SHA3 => 0x20,
            OpCode::ADDRESS => 0x30,
            OpCode::BALANCE => 0x31,
            OpCode::ORIGIN => 0x32,
            OpCode::CALLER => 0x33,
            OpCode::CALLVALUE => 0x34,
            OpCode::CALLDATALOAD => 0x35,
            OpCode::CALLDATASIZE => 0x36,
            OpCode::CALLDATACOPY => 0x37,
            OpCode::CODESIZE => 0x38,
            OpCode::CODECOPY => 0x39,
            OpCode::GASPRICE => 0x3a,
            OpCode::EXTCODESIZE => 0x3b,
            OpCode::EXTCODECOPY => 0x3c,
            OpCode::RETURNDATASIZE => 0x3d,
            OpCode::RETURNDATACOPY => 0x3e,
            OpCode::EXTCODEHASH => 0x3f,
            OpCode::BLOCKHASH => 0x40,
            OpCode::COINBASE => 0x41,
            OpCode::TIMESTAMP => 0x42,
            OpCode::NUMBER => 0x43,
            OpCode::DIFFICULTY => 0x44,
            OpCode::GASLIMIT => 0x45,
            OpCode::POP => 0x50,
            OpCode::MLOAD => 0x51,
            OpCode::MSTORE => 0x52,
            OpCode::MSTORE8 => 0x53,
            OpCode::SLOAD => 0x54,
            OpCode::SSTORE => 0x55,
            OpCode::JUMP => 0x56,
            OpCode::JUMPI => 0x57,
            OpCode::PC => 0x58,
            OpCode::MSIZE => 0x59,
            OpCode::GAS => 0x5a,
            OpCode::JUMPDEST => 0x5b,
            OpCode::PUSH1 => 0x60,
            OpCode::PUSH2 => 0x61,
            OpCode::PUSH3 => 0x62,
            OpCode::PUSH4 => 0x63,
            OpCode::PUSH5 => 0x64,
            OpCode::PUSH6 => 0x65,
            OpCode::PUSH7 => 0x66,
            OpCode::PUSH8 => 0x67,
            OpCode::PUSH9 => 0x68,
            OpCode::PUSH10 => 0x69,
            OpCode::PUSH11 => 0x6a,
            OpCode::PUSH12 => 0x6b,
            OpCode::PUSH13 => 0x6c,
            OpCode::PUSH14 => 0x6d,
            OpCode::PUSH15 => 0x6e,
            OpCode::PUSH16 => 0x6f,
            OpCode::PUSH17 => 0x70,
            OpCode::PUSH18 => 0x71,
            OpCode::PUSH19 => 0x72,
            OpCode::PUSH20 => 0x73,
            OpCode::PUSH21 => 0x74,
            OpCode::PUSH22 => 0x75,
            OpCode::PUSH23 => 0x76,
            OpCode::PUSH24 => 0x77,
            OpCode::PUSH25 => 0x78,
            OpCode::PUSH26 => 0x79,
            OpCode::PUSH27 => 0x7a,
            OpCode::PUSH28 => 0x7b,
            OpCode::PUSH29 => 0x7c,
            OpCode::PUSH30 => 0x7d,
            OpCode::PUSH31 => 0x7e,
            OpCode::PUSH32 => 0x7f,
            OpCode::DUP1 => 0x80,
            OpCode::DUP2 => 0x81,
            OpCode::DUP3 => 0x82,
            OpCode::DUP4 => 0x83,
            OpCode::DUP5 => 0x84,
            OpCode::DUP6 => 0x85,
            OpCode::DUP7 => 0x86,
            OpCode::DUP8 => 0x87,
            OpCode::DUP9 => 0x88,
            OpCode::DUP10 => 0x89,
            OpCode::DUP11 => 0x8a,
            OpCode::DUP12 => 0x8b,
            OpCode::DUP13 => 0x8c,
            OpCode::DUP14 => 0x8d,
            OpCode::DUP15 => 0x8e,
            OpCode::DUP16 => 0x8f,
            OpCode::SWAP1 => 0x90,
            OpCode::SWAP2 => 0x91,
            OpCode::SWAP3 => 0x92,
            OpCode::SWAP4 => 0x93,
            OpCode::SWAP5 => 0x94,
            OpCode::SWAP6 => 0x95,
            OpCode::SWAP7 => 0x96,
            OpCode::SWAP8 => 0x97,
            OpCode::SWAP9 => 0x98,
            OpCode::SWAP10 => 0x99,
            OpCode::SWAP11 => 0x9a,
            OpCode::SWAP12 => 0x9b,
            OpCode::SWAP13 => 0x9c,
            OpCode::SWAP14 => 0x9d,
            OpCode::SWAP15 => 0x9e,
            OpCode::SWAP16 => 0x9f,
            OpCode::LOG0 => 0xa0,
            OpCode::LOG1 => 0xa1,
            OpCode::LOG2 => 0xa2,
            OpCode::LOG3 => 0xa3,
            OpCode::LOG4 => 0xa4,
            OpCode::CREATE => 0xf0,
            OpCode::CALL => 0xf1,
            OpCode::CALLCODE => 0xf2,
            OpCode::RETURN => 0xf3,
            OpCode::DELEGATECALL => 0xf4,
            OpCode::CREATE2 => 0xf5,
            OpCode::REVERT => 0xfd,
            OpCode::STATICCALL => 0xfa,
            OpCode::SUICIDE => 0xff,
        }
    }

    /// Looks an instruction up by its one-byte code. Succeeds exactly on
    /// the assigned codes; a gap byte is rejected as `InvalidOpcode`, with
    /// the byte carried in the error.
    pub fn decode(code: u8) -> (r: Result<OpCode, RegistryError>)
        ensures
            is_assigned(code) ==> r is Ok && r->Ok_0.spec_code() == code,
            !is_assigned(code) ==> r == Err::<OpCode, RegistryError>(RegistryError::InvalidOpcode(code)),
    {
        match code {
            0x00 => Ok(OpCode::STOP),
            0x01 => Ok(OpCode::ADD),
            0x02 => Ok(OpCode::MUL),
            0x03 => Ok(OpCode::SUB),
            0x04 => Ok(OpCode::DIV),
            0x05 => Ok(OpCode::SDIV),
            0x06 => Ok(OpCode::MOD),
            0x07 => Ok(OpCode::SMOD),
            0x08 => Ok(OpCode::ADDMOD),
            0x09 => Ok(OpCode::MULMOD),
            0x0a => Ok(OpCode::EXP),
            0x0b => Ok(OpCode::SIGNEXTEND),
            0x10 => Ok(OpCode::LT),
            0x11 => Ok(OpCode::GT),
            0x12 => Ok(OpCode::SLT),
            0x13 => Ok(OpCode::SGT),
            0x14 => Ok(OpCode::EQ),
            0x15 => Ok(OpCode::ISZERO),
            0x16 => Ok(OpCode::AND),
            0x17 => Ok(OpCode::OR),
            0x18 => Ok(OpCode::XOR),
            0x19 => Ok(OpCode::NOT),
            0x1a => Ok(OpCode::BYTE),
            0x1b => Ok(OpCode::SHL),
            0x1c => Ok(OpCode::SHR),
            0x1d => Ok(OpCode::SAR),
            0x20 => Ok(OpCode::SHA3),
            0x30 => Ok(OpCode::ADDRESS),
            0x31 => Ok(OpCode::BALANCE),
            0x32 => Ok(OpCode::ORIGIN),
            0x33 => Ok(OpCode::CALLER),
            0x34 => Ok(OpCode::CALLVALUE),
            0x35 => Ok(OpCode::CALLDATALOAD),
            0x36 => Ok(OpCode::CALLDATASIZE),
            0x37 => Ok(OpCode::CALLDATACOPY),
            0x38 => Ok(OpCode::CODESIZE),
            0x39 => Ok(OpCode::CODECOPY),
            0x3a => Ok(OpCode::GASPRICE),
            0x3b => Ok(OpCode::EXTCODESIZE),
            0x3c => Ok(OpCode::EXTCODECOPY),
            0x3d => Ok(OpCode::RETURNDATASIZE),
            0x3e => Ok(OpCode::RETURNDATACOPY),
            0x3f => Ok(OpCode::EXTCODEHASH),
            0x40 => Ok(OpCode::BLOCKHASH),
            0x41 => Ok(OpCode::COINBASE),
            0x42 => Ok(OpCode::TIMESTAMP),
            0x43 => Ok(OpCode::NUMBER),
            0x44 => Ok(OpCode::DIFFICULTY),
            0x45 => Ok(OpCode::GASLIMIT),
            0x50 => Ok(OpCode::POP),
            0x51 => Ok(OpCode::MLOAD),
            0x52 => Ok(OpCode::MSTORE),
            0x53 => Ok(OpCode::MSTORE8),
            0x54 => Ok(OpCode::SLOAD),
            0x55 => Ok(OpCode::SSTORE),
            0x56 => Ok(OpCode::JUMP),
            0x57 => Ok(OpCode::JUMPI),
            0x58 => Ok(OpCode::PC),
            0x59 => Ok(OpCode::MSIZE),
            0x5a => Ok(OpCode::GAS),
            0x5b => Ok(OpCode::JUMPDEST),
            0x60 => Ok(OpCode::PUSH1),
            0x61 => Ok(OpCode::PUSH2),
            0x62 => Ok(OpCode::PUSH3),
            0x63 => Ok(OpCode::PUSH4),
            0x64 => Ok(OpCode::PUSH5),
            0x65 => Ok(OpCode::PUSH6),
            0x66 => Ok(OpCode::PUSH7),
            0x67 => Ok(OpCode::PUSH8),
            0x68 => Ok(OpCode::PUSH9),
            0x69 => Ok(OpCode::PUSH10),
            0x6a => Ok(OpCode::PUSH11),
            0x6b => Ok(OpCode::PUSH12),
            0x6c => Ok(OpCode::PUSH13),
            0x6d => Ok(OpCode::PUSH14),
            0x6e => Ok(OpCode::PUSH15),
            0x6f => Ok(OpCode::PUSH16),
            0x70 => Ok(OpCode::PUSH17),
            0x71 => Ok(OpCode::PUSH18),
            0x72 => Ok(OpCode::PUSH19),
            0x73 => Ok(OpCode::PUSH20),
            0x74 => Ok(OpCode::PUSH21),
            0x75 => Ok(OpCode::PUSH22),
            0x76 => Ok(OpCode::PUSH23),
            0x77 => Ok(OpCode::PUSH24),
            0x78 => Ok(OpCode::PUSH25),
            0x79 => Ok(OpCode::PUSH26),
            0x7a => Ok(OpCode::PUSH27),
            0x7b => Ok(OpCode::PUSH28),
            0x7c => Ok(OpCode::PUSH29),
            0x7d => Ok(OpCode::PUSH30),
            0x7e => Ok(OpCode::PUSH31),
            0x7f => Ok(OpCode::PUSH32),
            0x80 => Ok(OpCode::DUP1),
            0x81 => Ok(OpCode::DUP2),
            0x82 => Ok(OpCode::DUP3),
            0x83 => Ok(OpCode::DUP4),
            0x84 => Ok(OpCode::DUP5),
            0x85 => Ok(OpCode::DUP6),
            0x86 => Ok(OpCode::DUP7),
            0x87 => Ok(OpCode::DUP8),
            0x88 => Ok(OpCode::DUP9),
            0x89 => Ok(OpCode::DUP10),
            0x8a => Ok(OpCode::DUP11),
            0x8b => Ok(OpCode::DUP12),
            0x8c => Ok(OpCode::DUP13),
            0x8d => Ok(OpCode::DUP14),
            0x8e => Ok(OpCode::DUP15),
            0x8f => Ok(OpCode::DUP16),
            0x90 => Ok(OpCode::SWAP1),
            0x91 => Ok(OpCode::SWAP2),
            0x92 => Ok(OpCode::SWAP3),
            0x93 => Ok(OpCode::SWAP4),
            0x94 => Ok(OpCode::SWAP5),
            0x95 => Ok(OpCode::SWAP6),
            0x96 => Ok(OpCode::SWAP7),
            0x97 => Ok(OpCode::SWAP8),
            0x98 => Ok(OpCode::SWAP9),
            0x99 => Ok(OpCode::SWAP10),
            0x9a => Ok(OpCode::SWAP11),
            0x9b => Ok(OpCode::SWAP12),
            0x9c => Ok(OpCode::SWAP13),
            0x9d => Ok(OpCode::SWAP14),
            0x9e => Ok(OpCode::SWAP15),
            0x9f => Ok(OpCode::SWAP16),
            0xa0 => Ok(OpCode::LOG0),
            0xa1 => Ok(OpCode::LOG1),
            0xa2 => Ok(OpCode::LOG2),
            0xa3 => Ok(OpCode::LOG3),
            0xa4 => Ok(OpCode::LOG4),
            0xf0 => Ok(OpCode::CREATE),
            0xf1 => Ok(OpCode::CALL),
            0xf2 => Ok(OpCode::CALLCODE),
            0xf3 => Ok(OpCode::RETURN),
            0xf4 => Ok(OpCode::DELEGATECALL),
            0xf5 => Ok(OpCode::CREATE2),
            0xfa => Ok(OpCode::STATICCALL),
            0xfd => Ok(OpCode::REVERT),
            0xff => Ok(OpCode::SUICIDE),
            _ => Err(RegistryError::InvalidOpcode(code)),
        }
    }
    /// The mnemonic of this instruction: its unique, uppercase,
    /// case-sensitive textual name.
    pub open spec fn spec_mnemonic(self) -> Seq<char> {
        match self {
            OpCode::STOP => "STOP"@,
            OpCode::ADD => "ADD"@,
            OpCode::MUL => "MUL"@,
            OpCode::SUB => "SUB"@,
            OpCode::DIV => "DIV"@,
            OpCode::SDIV => "SDIV"@,
            OpCode::MOD => "MOD"@,
            OpCode::SMOD => "SMOD"@,
            OpCode::ADDMOD => "ADDMOD"@,
            OpCode::MULMOD => "MULMOD"@,
            OpCode::EXP => "EXP"@,
            OpCode::SIGNEXTEND => "SIGNEXTEND"@,
            OpCode::LT => "LT"@,
            OpCode::GT => "GT"@,
            OpCode::SLT => "SLT"@,
            OpCode::SGT => "SGT"@,
            OpCode::EQ => "EQ"@,
            OpCode::ISZERO => "ISZERO"@,
            OpCode::AND => "AND"@,
            OpCode::OR => "OR"@,
            OpCode::XOR => "XOR"@,
            OpCode::NOT => "NOT"@,
            OpCode::BYTE => "BYTE"@,
            OpCode::SHL => "SHL"@,
            OpCode::SHR => "SHR"@,
            OpCode::SAR => "SAR"@,
            OpCode::SHA3 => "SHA3"@,
            OpCode::ADDRESS => "ADDRESS"@,
            OpCode::BALANCE => "BALANCE"@,
            OpCode::ORIGIN => "ORIGIN"@,
            OpCode::CALLER => "CALLER"@,
            OpCode::CALLVALUE => "CALLVALUE"@,
            OpCode::CALLDATALOAD => "CALLDATALOAD"@,
            OpCode::CALLDATASIZE => "CALLDATASIZE"@,
            OpCode::CALLDATACOPY => "CALLDATACOPY"@,
            OpCode::CODESIZE => "CODESIZE"@,
            OpCode::CODECOPY => "CODECOPY"@,
            OpCode::GASPRICE => "GASPRICE"@,
            OpCode::EXTCODESIZE => "EXTCODESIZE"@,
            OpCode::EXTCODECOPY => "EXTCODECOPY"@,
            OpCode::RETURNDATASIZE => "RETURNDATASIZE"@,
            OpCode::RETURNDATACOPY => "RETURNDATACOPY"@,
            OpCode::EXTCODEHASH => "EXTCODEHASH"@,
            OpCode::BLOCKHASH => "BLOCKHASH"@,
            OpCode::COINBASE => "COINBASE"@,
            OpCode::TIMESTAMP => "TIMESTAMP"@,
            OpCode::NUMBER => "NUMBER"@,
            OpCode::DIFFICULTY => "DIFFICULTY"@,
            OpCode::GASLIMIT => "GASLIMIT"@,
            OpCode::POP => "POP"@,
            OpCode::MLOAD => "MLOAD"@,
            OpCode::MSTORE => "MSTORE"@,
            OpCode::MSTORE8 => "MSTORE8"@,
            OpCode::SLOAD => "SLOAD"@,
            OpCode::SSTORE => "SSTORE"@,
            OpCode::JUMP => "JUMP"@,
            OpCode::JUMPI => "JUMPI"@,
            OpCode::PC => "PC"@,
            OpCode::MSIZE => "MSIZE"@,
            OpCode::GAS => "GAS"@,
            OpCode::JUMPDEST => "JUMPDEST"@,
            OpCode::PUSH1 => "PUSH1"@,
            OpCode::PUSH2 => "PUSH2"@,
            OpCode::PUSH3 => "PUSH3"@,
            OpCode::PUSH4 => "PUSH4"@,
            OpCode::PUSH5 => "PUSH5"@,
            OpCode::PUSH6 => "PUSH6"@,
            OpCode::PUSH7 => "PUSH7"@,
            OpCode::PUSH8 => "PUSH8"@,
            OpCode::PUSH9 => "PUSH9"@,
            OpCode::PUSH10 => "PUSH10"@,
            OpCode::PUSH11 => "PUSH11"@,
            OpCode::PUSH12 => "PUSH12"@,
            OpCode::PUSH13 => "PUSH13"@,
            OpCode::PUSH14 => "PUSH14"@,
            OpCode::PUSH15 => "PUSH15"@,
            OpCode::PUSH16 => "PUSH16"@,
            OpCode::PUSH17 => "PUSH17"@,
            OpCode::PUSH18 => "PUSH18"@,
            OpCode::PUSH19 => "PUSH19"@,
            OpCode::PUSH20 => "PUSH20"@,
            OpCode::PUSH21 => "PUSH21"@,
            OpCode::PUSH22 => "PUSH22"@,
            OpCode::PUSH23 => "PUSH23"@,
            OpCode::PUSH24 => "PUSH24"@,
            OpCode::PUSH25 => "PUSH25"@,
            OpCode::PUSH26 => "PUSH26"@,
            OpCode::PUSH27 => "PUSH27"@,
            OpCode::PUSH28 => "PUSH28"@,
            OpCode::PUSH29 => "PUSH29"@,
            OpCode::PUSH30 => "PUSH30"@,
            OpCode::PUSH31 => "PUSH31"@,
            OpCode::PUSH32 => "PUSH32"@,
            OpCode::DUP1 => "DUP1"@,
            OpCode::DUP2 => "DUP2"@,
            OpCode::DUP3 => "DUP3"@,
            OpCode::DUP4 => "DUP4"@,
            OpCode::DUP5 => "DUP5"@,
            OpCode::DUP6 => "DUP6"@,
            OpCode::DUP7 => "DUP7"@,
            OpCode::DUP8 => "DUP8"@,
            OpCode::DUP9 => "DUP9"@,
            OpCode::DUP10 => "DUP10"@,
            OpCode::DUP11 => "DUP11"@,
            OpCode::DUP12 => "DUP12"@,
            OpCode::DUP13 => "DUP13"@,
            OpCode::DUP14 => "DUP14"@,
            OpCode::DUP15 => "DUP15"@,
            OpCode::DUP16 => "DUP16"@,
            OpCode::SWAP1 => "SWAP1"@,
            OpCode::SWAP2 => "SWAP2"@,
            OpCode::SWAP3 => "SWAP3"@,
            OpCode::SWAP4 => "SWAP4"@,
            OpCode::SWAP5 => "SWAP5"@,
            OpCode::SWAP6 => "SWAP6"@,
            OpCode::SWAP7 => "SWAP7"@,
            OpCode::SWAP8 => "SWAP8"@,
            OpCode::SWAP9 => "SWAP9"@,
            OpCode::SWAP10 => "SWAP10"@,
            OpCode::SWAP11 => "SWAP11"@,
            OpCode::SWAP12 => "SWAP12"@,
            OpCode::SWAP13 => "SWAP13"@,
            OpCode::SWAP14 => "SWAP14"@,
            OpCode::SWAP15 => "SWAP15"@,
            OpCode::SWAP16 => "SWAP16"@,
            OpCode::LOG0 => "LOG0"@,
            OpCode::LOG1 => "LOG1"@,
            OpCode::LOG2 => "LOG2"@,
            OpCode::LOG3 => "LOG3"@,
            OpCode::LOG4 => "LOG4"@,
            OpCode::CREATE => "CREATE"@,
            OpCode::CALL => "CALL"@,
            OpCode::CALLCODE => "CALLCODE"@,
            OpCode::RETURN => "RETURN"@,
            OpCode::DELEGATECALL => "DELEGATECALL"@,
            OpCode::CREATE2 => "CREATE2"@,
            OpCode::REVERT => "REVERT"@,
            OpCode::STATICCALL => "STATICCALL"@,
            OpCode::SUICIDE => "SUICIDE"@,
        }
    }

    /// The mnemonic of this instruction, inverse-consistent with
    /// `encode`.
    pub fn mnemonic_of(&self) -> (r: &'static str)
        ensures
            r@ == self.spec_mnemonic(),
    {
        match self {
            OpCode::STOP => "STOP",
            OpCode::ADD => "ADD",
            OpCode::MUL => "MUL",
            OpCode::SUB => "SUB",
            OpCode::DIV => "DIV",
            OpCode::SDIV => "SDIV",
            OpCode::MOD => "MOD",
            OpCode::SMOD => "SMOD",
            OpCode::ADDMOD => "ADDMOD",
            OpCode::MULMOD => "MULMOD",
            OpCode::EXP => "EXP",
            OpCode::SIGNEXTEND => "SIGNEXTEND",
            OpCode::LT => "LT",
            OpCode::GT => "GT",
            OpCode::SLT => "SLT",
            OpCode::SGT => "SGT",
            OpCode::EQ => "EQ",
            OpCode::ISZERO => "ISZERO",
            OpCode::AND => "AND",
            OpCode::OR => "OR",
            OpCode::XOR => "XOR",
            OpCode::NOT => "NOT",
            OpCode::BYTE => "BYTE",
            OpCode::SHL => "SHL",
            OpCode::SHR => "SHR",
            OpCode::SAR => "SAR",
            OpCode::SHA3 => "SHA3",
            OpCode::ADDRESS => "ADDRESS",
            OpCode::BALANCE => "BALANCE",
            OpCode::ORIGIN => "ORIGIN",
            OpCode::CALLER => "CALLER",
            OpCode::CALLVALUE => "CALLVALUE",
            OpCode::CALLDATALOAD => "CALLDATALOAD",
            OpCode::CALLDATASIZE => "CALLDATASIZE",
            OpCode::CALLDATACOPY => "CALLDATACOPY",
            OpCode::CODESIZE => "CODESIZE",
            OpCode::CODECOPY => "CODECOPY",
            OpCode::GASPRICE => "GASPRICE",
            OpCode::EXTCODESIZE => "EXTCODESIZE",
            OpCode::EXTCODECOPY => "EXTCODECOPY",
            OpCode::RETURNDATASIZE => "RETURNDATASIZE",
            OpCode::RETURNDATACOPY => "RETURNDATACOPY",
            OpCode::EXTCODEHASH => "EXTCODEHASH",
            OpCode::BLOCKHASH => "BLOCKHASH",
            OpCode::COINBASE => "COINBASE",
            OpCode::TIMESTAMP => "TIMESTAMP",
            OpCode::NUMBER => "NUMBER",
            OpCode::DIFFICULTY => "DIFFICULTY",
            OpCode::GASLIMIT => "GASLIMIT",
            OpCode::POP => "POP",
            OpCode::MLOAD => "MLOAD",
            OpCode::MSTORE => "MSTORE",
            OpCode::MSTORE8 => "MSTORE8",
            OpCode::SLOAD => "SLOAD",
            OpCode::SSTORE => "SSTORE",
            OpCode::JUMP => "JUMP",
            OpCode::JUMPI => "JUMPI",
            OpCode::PC => "PC",
            OpCode::MSIZE => "MSIZE",
            OpCode::GAS => "GAS",
            OpCode::JUMPDEST => "JUMPDEST",
            OpCode::PUSH1 => "PUSH1",
            OpCode::PUSH2 => "PUSH2",
            OpCode::PUSH3 => "PUSH3",
            OpCode::PUSH4 => "PUSH4",
            OpCode::PUSH5 => "PUSH5",
            OpCode::PUSH6 => "PUSH6",
            OpCode::PUSH7 => "PUSH7",
            OpCode::PUSH8 => "PUSH8",
            OpCode::PUSH9 => "PUSH9",
            OpCode::PUSH10 => "PUSH10",
            OpCode::PUSH11 => "PUSH11",
            OpCode::PUSH12 => "PUSH12",
            OpCode::PUSH13 => "PUSH13",
            OpCode::PUSH14 => "PUSH14",
            OpCode::PUSH15 => "PUSH15",
            OpCode::PUSH16 => "PUSH16",
            OpCode::PUSH17 => "PUSH17",
            OpCode::PUSH18 => "PUSH18",
            OpCode::PUSH19 => "PUSH19",
            OpCode::PUSH20 => "PUSH20",
            OpCode::PUSH21 => "PUSH21",
            OpCode::PUSH22 => "PUSH22",
            OpCode::PUSH23 => "PUSH23",
            OpCode::PUSH24 => "PUSH24",
            OpCode::PUSH25 => "PUSH25",
            OpCode::PUSH26 => "PUSH26",
            OpCode::PUSH27 => "PUSH27",
            OpCode::PUSH28 => "PUSH28",
            OpCode::PUSH29 => "PUSH29",
            OpCode::PUSH30 => "PUSH30",
            OpCode::PUSH31 => "PUSH31",
            OpCode::PUSH32 => "PUSH32",
            OpCode::DUP1 => "DUP1",
            OpCode::DUP2 => "DUP2",
            OpCode::DUP3 => "DUP3",
            OpCode::DUP4 => "DUP4",
            OpCode::DUP5 => "DUP5",
            OpCode::DUP6 => "DUP6",
            OpCode::DUP7 => "DUP7",
            OpCode::DUP8 => "DUP8",
            OpCode::DUP9 => "DUP9",
            OpCode::DUP10 => "DUP10",
            OpCode::DUP11 => "DUP11",
            OpCode::DUP12 => "DUP12",
            OpCode::DUP13 => "DUP13",
            OpCode::DUP14 => "DUP14",
            OpCode::DUP15 => "DUP15",
            OpCode::DUP16 => "DUP16",
            OpCode::SWAP1 => "SWAP1",
            OpCode::SWAP2 => "SWAP2",
            OpCode::SWAP3 => "SWAP3",
            OpCode::SWAP4 => "SWAP4",
            OpCode::SWAP5 => "SWAP5",
            OpCode::SWAP6 => "SWAP6",
            OpCode::SWAP7 => "SWAP7",
            OpCode::SWAP8 => "SWAP8",
            OpCode::SWAP9 => "SWAP9",
            OpCode::SWAP10 => "SWAP10",
            OpCode::SWAP11 => "SWAP11",
            OpCode::SWAP12 => "SWAP12",
            OpCode::SWAP13 => "SWAP13",
            OpCode::SWAP14 => "SWAP14",
            OpCode::SWAP15 => "SWAP15",
            OpCode::SWAP16 => "SWAP16",
            OpCode::LOG0 => "LOG0",
            OpCode::LOG1 => "LOG1",
            OpCode::LOG2 => "LOG2",
            OpCode::LOG3 => "LOG3",
            OpCode::LOG4 => "LOG4",
            OpCode::CREATE => "CREATE",
            OpCode::CALL => "CALL",
            OpCode::CALLCODE => "CALLCODE",
            OpCode::RETURN => "RETURN",
            OpCode::DELEGATECALL => "DELEGATECALL",
            OpCode::CREATE2 => "CREATE2",
            OpCode::REVERT => "REVERT",
            OpCode::STATICCALL => "STATICCALL",
            OpCode::SUICIDE => "SUICIDE",
        }
    }

    /// Looks an instruction up by its mnemonic, by exact, case-sensitive
    /// match. Succeeds exactly on the defined mnemonics; any other text is
    /// rejected as `UnknownMnemonic`, with the text carried in the error.
    pub fn encode(s: &str) -> (r: Result<OpCode, RegistryError>)
        ensures
            r is Ok ==> r->Ok_0.spec_mnemonic() == s@,
            r is Err ==> forall|op: OpCode| op.spec_mnemonic() != s@,
            r is Err ==> (r->Err_0 matches RegistryError::UnknownMnemonic(m) && m@ == s@),
    {
        if str_eq(s, "STOP") {
            return Ok(OpCode::STOP);
        }
        if str_eq(s, "ADD") {
            return Ok(OpCode::ADD);
        }
        if str_eq(s, "MUL") {
            return Ok(OpCode::MUL);
        }
        if str_eq(s, "SUB") {
            return Ok(OpCode::SUB);
        }
        if str_eq(s, "DIV") {
            return Ok(OpCode::DIV);
        }
        if str_eq(s, "SDIV") {
            return Ok(OpCode::SDIV);
        }
        if str_eq(s, "MOD") {
            return Ok(OpCode::MOD);
        }
        if str_eq(s, "SMOD") {
            return Ok(OpCode::SMOD);
        }
        if str_eq(s, "ADDMOD") {
            return Ok(OpCode::ADDMOD);
        }
        if str_eq(s, "MULMOD") {
            return Ok(OpCode::MULMOD);
        }
        if str_eq(s, "EXP") {
            return Ok(OpCode::EXP);
        }
        if str_eq(s, "SIGNEXTEND") {
            return Ok(OpCode::SIGNEXTEND);
        }
        if str_eq(s, "LT") {
            return Ok(OpCode::LT);
        }
        if str_eq(s, "GT") {
            return Ok(OpCode::GT);
        }
        if str_eq(s, "SLT") {
            return Ok(OpCode::SLT);
        }
        if str_eq(s, "SGT") {
            return Ok(OpCode::SGT);
        }
        if str_eq(s, "EQ") {
            return Ok(OpCode::EQ);
        }
        if str_eq(s, "ISZERO") {
            return Ok(OpCode::ISZERO);
        }
        if str_eq(s, "AND") {
            return Ok(OpCode::AND);
        }
        if str_eq(s, "OR") {
            return Ok(OpCode::OR);
        }
        if str_eq(s, "XOR") {
            return Ok(OpCode::XOR);
        }
        if str_eq(s, "NOT") {
            return Ok(OpCode::NOT);
        }
        if str_eq(s, "BYTE") {
            return Ok(OpCode::BYTE);
        }
        if str_eq(s, "SHL") {
            return Ok(OpCode::SHL);
        }
        if str_eq(s, "SHR") {
            return Ok(OpCode::SHR);
        }
        if str_eq(s, "SAR") {
            return Ok(OpCode::SAR);
        }
        if str_eq(s, "SHA3") {
            return Ok(OpCode::SHA3);
        }
        if str_eq(s, "ADDRESS") {
            return Ok(OpCode::ADDRESS);
        }
        if str_eq(s, "BALANCE") {
            return Ok(OpCode::BALANCE);
        }
        if str_eq(s, "ORIGIN") {
            return Ok(OpCode::ORIGIN);
        }
        if str_eq(s, "CALLER") {
            return Ok(OpCode::CALLER);
        }
        if str_eq(s, "CALLVALUE") {
            return Ok(OpCode::CALLVALUE);
        }
        if str_eq(s, "CALLDATALOAD") {
            return Ok(OpCode::CALLDATALOAD);
        }
        if str_eq(s, "CALLDATASIZE") {
            return Ok(OpCode::CALLDATASIZE);
        }
        if str_eq(s, "CALLDATACOPY") {
            return Ok(OpCode::CALLDATACOPY);
        }
        if str_eq(s, "CODESIZE") {
            return Ok(OpCode::CODESIZE);
        }
        if str_eq(s, "CODECOPY") {
            return Ok(OpCode::CODECOPY);
        }
        if str_eq(s, "GASPRICE") {
            return Ok(OpCode::GASPRICE);
        }
        if str_eq(s, "EXTCODESIZE") {
            return Ok(OpCode::EXTCODESIZE);
        }
        if str_eq(s, "EXTCODECOPY") {
            return Ok(OpCode::EXTCODECOPY);
        }
        if str_eq(s, "RETURNDATASIZE") {
            return Ok(OpCode::RETURNDATASIZE);
        }
        if str_eq(s, "RETURNDATACOPY") {
            return Ok(OpCode::RETURNDATACOPY);
        }
        if str_eq(s, "EXTCODEHASH") {
            return Ok(OpCode::EXTCODEHASH);
        }
        if str_eq(s, "BLOCKHASH") {
            return Ok(OpCode::BLOCKHASH);
        }
        if str_eq(s, "COINBASE") {
            return Ok(OpCode::COINBASE);
        }
        if str_eq(s, "TIMESTAMP") {
            return Ok(OpCode::TIMESTAMP);
        }
        if str_eq(s, "NUMBER") {
            return Ok(OpCode::NUMBER);
        }
        if str_eq(s, "DIFFICULTY") {
            return Ok(OpCode::DIFFICULTY);
        }
        if str_eq(s, "GASLIMIT") {
            return Ok(OpCode::GASLIMIT);
        }
        if str_eq(s, "POP") {
            return Ok(OpCode::POP);
        }
        if str_eq(s, "MLOAD") {
            return Ok(OpCode::MLOAD);
        }
        if str_eq(s, "MSTORE") {
            return Ok(OpCode::MSTORE);
        }
        if str_eq(s, "MSTORE8") {
            return Ok(OpCode::MSTORE8);
        }
        if str_eq(s, "SLOAD") {
            return Ok(OpCode::SLOAD);
        }
        if str_eq(s, "SSTORE") {
            return Ok(OpCode::SSTORE);
        }
        if str_eq(s, "JUMP") {
            return Ok(OpCode::JUMP);
        }
        if str_eq(s, "JUMPI") {
            return Ok(OpCode::JUMPI);
        }
        if str_eq(s, "PC") {
            return Ok(OpCode::PC);
        }
        if str_eq(s, "MSIZE") {
            return Ok(OpCode::MSIZE);
        }
        if str_eq(s, "GAS") {
            return Ok(OpCode::GAS);
        }
        if str_eq(s, "JUMPDEST") {
            return Ok(OpCode::JUMPDEST);
        }
        if str_eq(s, "PUSH1") {
            return Ok(OpCode::PUSH1);
        }
        if str_eq(s, "PUSH2") {
            return Ok(OpCode::PUSH2);
        }
        if str_eq(s, "PUSH3") {
            return Ok(OpCode::PUSH3);
        }
        if str_eq(s, "PUSH4") {
            return Ok(OpCode::PUSH4);
        }
        if str_eq(s, "PUSH5") {
            return Ok(OpCode::PUSH5);
        }
        if str_eq(s, "PUSH6") {
            return Ok(OpCode::PUSH6);
        }
        if str_eq(s, "PUSH7") {
            return Ok(OpCode::PUSH7);
        }
        if str_eq(s, "PUSH8") {
            return Ok(OpCode::PUSH8);
        }
        if str_eq(s, "PUSH9") {
            return Ok(OpCode::PUSH9);
        }
        if str_eq(s, "PUSH10") {
            return Ok(OpCode::PUSH10);
        }
        if str_eq(s, "PUSH11") {
            return Ok(OpCode::PUSH11);
        }
        if str_eq(s, "PUSH12") {
            return Ok(OpCode::PUSH12);
        }
        if str_eq(s, "PUSH13") {
            return Ok(OpCode::PUSH13);
        }
        if str_eq(s, "PUSH14") {
            return Ok(OpCode::PUSH14);
        }
        if str_eq(s, "PUSH15") {
            return Ok(OpCode::PUSH15);
        }
        if str_eq(s, "PUSH16") {
            return Ok(OpCode::PUSH16);
        }
        if str_eq(s, "PUSH17") {
            return Ok(OpCode::PUSH17);
        }
        if str_eq(s, "PUSH18") {
            return Ok(OpCode::PUSH18);
        }
        if str_eq(s, "PUSH19") {
            return Ok(OpCode::PUSH19);
        }
        if str_eq(s, "PUSH20") {
            return Ok(OpCode::PUSH20);
        }
        if str_eq(s, "PUSH21") {
            return Ok(OpCode::PUSH21);
        }
        if str_eq(s, "PUSH22") {
            return Ok(OpCode::PUSH22);
        }
        if str_eq(s, "PUSH23") {
            return Ok(OpCode::PUSH23);
        }
        if str_eq(s, "PUSH24") {
            return Ok(OpCode::PUSH24);
        }
        if str_eq(s, "PUSH25") {
            return Ok(OpCode::PUSH25);
        }
        if str_eq(s, "PUSH26") {
            return Ok(OpCode::PUSH26);
        }
        if str_eq(s, "PUSH27") {
            return Ok(OpCode::PUSH27);
        }
        if str_eq(s, "PUSH28") {
            return Ok(OpCode::PUSH28);
        }
        if str_eq(s, "PUSH29") {
            return Ok(OpCode::PUSH29);
        }
        if str_eq(s, "PUSH30") {
            return Ok(OpCode::PUSH30);
        }
        if str_eq(s, "PUSH31") {
            return Ok(OpCode::PUSH31);
        }
        if str_eq(s, "PUSH32") {
            return Ok(OpCode::PUSH32);
        }
        if str_eq(s, "DUP1") {
            return Ok(OpCode::DUP1);
        }
        if str_eq(s, "DUP2") {
            return Ok(OpCode::DUP2);
        }
        if str_eq(s, "DUP3") {
            return Ok(OpCode::DUP3);
        }
        if str_eq(s, "DUP4") {
            return Ok(OpCode::DUP4);
        }
        if str_eq(s, "DUP5") {
            return Ok(OpCode::DUP5);
        }
        if str_eq(s, "DUP6") {
            return Ok(OpCode::DUP6);
        }
        if str_eq(s, "DUP7") {
            return Ok(OpCode::DUP7);
        }
        if str_eq(s, "DUP8") {
            return Ok(OpCode::DUP8);
        }
        if str_eq(s, "DUP9") {
            return Ok(OpCode::DUP9);
        }
        if str_eq(s, "DUP10") {
            return Ok(OpCode::DUP10);
        }
        if str_eq(s, "DUP11") {
            return Ok(OpCode::DUP11);
        }
        if str_eq(s, "DUP12") {
            return Ok(OpCode::DUP12);
        }
        if str_eq(s, "DUP13") {
            return Ok(OpCode::DUP13);
        }
        if str_eq(s, "DUP14") {
            return Ok(OpCode::DUP14);
        }
        if str_eq(s, "DUP15") {
            return Ok(OpCode::DUP15);
        }
        if str_eq(s, "DUP16") {
            return Ok(OpCode::DUP16);
        }
        if str_eq(s, "SWAP1") {
            return Ok(OpCode::SWAP1);
        }
        if str_eq(s, "SWAP2") {
            return Ok(OpCode::SWAP2);
        }
        if str_eq(s, "SWAP3") {
            return Ok(OpCode::SWAP3);
        }
        if str_eq(s, "SWAP4") {
            return Ok(OpCode::SWAP4);
        }
        if str_eq(s, "SWAP5") {
            return Ok(OpCode::SWAP5);
        }
        if str_eq(s, "SWAP6") {
            return Ok(OpCode::SWAP6);
        }
        if str_eq(s, "SWAP7") {
            return Ok(OpCode::SWAP7);
        }
        if str_eq(s, "SWAP8") {
            return Ok(OpCode::SWAP8);
        }
        if str_eq(s, "SWAP9") {
            return Ok(OpCode::SWAP9);
        }
        if str_eq(s, "SWAP10") {
            return Ok(OpCode::SWAP10);
        }
        if str_eq(s, "SWAP11") {
            return Ok(OpCode::SWAP11);
        }
        if str_eq(s, "SWAP12") {
            return Ok(OpCode::SWAP12);
        }
        if str_eq(s, "SWAP13") {
            return Ok(OpCode::SWAP13);
        }
        if str_eq(s, "SWAP14") {
            return Ok(OpCode::SWAP14);
        }
        if str_eq(s, "SWAP15") {
            return Ok(OpCode::SWAP15);
        }
        if str_eq(s, "SWAP16") {
            return Ok(OpCode::SWAP16);
        }
        if str_eq(s, "LOG0") {
            return Ok(OpCode::LOG0);
        }
        if str_eq(s, "LOG1") {
            return Ok(OpCode::LOG1);
        }
        if str_eq(s, "LOG2") {
            return Ok(OpCode::LOG2);
        }
        if str_eq(s, "LOG3") {
            return Ok(OpCode::LOG3);
        }
        if str_eq(s, "LOG4") {
            return Ok(OpCode::LOG4);
        }
        if str_eq(s, "CREATE") {
            return Ok(OpCode::CREATE);
        }
        if str_eq(s, "CALL") {
            return Ok(OpCode::CALL);
        }
        if str_eq(s, "CALLCODE") {
            return Ok(OpCode::CALLCODE);
        }
        if str_eq(s, "RETURN") {
            return Ok(OpCode::RETURN);
        }
        if str_eq(s, "DELEGATECALL") {
            return Ok(OpCode::DELEGATECALL);
        }
        if str_eq(s, "CREATE2") {
            return Ok(OpCode::CREATE2);
        }
        if str_eq(s, "REVERT") {
            return Ok(OpCode::REVERT);
        }
        if str_eq(s, "STATICCALL") {
            return Ok(OpCode::STATICCALL);
        }
        if str_eq(s, "SUICIDE") {
            return Ok(OpCode::SUICIDE);
        }
        Err(RegistryError::UnknownMnemonic(s.to_owned()))
    }
}

/// Character-by-character equality of two strings, equivalent to equality
/// of their views.
fn str_eq(a: &str, b: &str) -> (r: bool)
    ensures
        r == (a@ == b@),
{
    let alen = a.unicode_len();
    let blen = b.unicode_len();
    if alen != blen {
        return false;
    }
    let mut i: usize = 0;
    while i < alen
        invariant
            alen == a@.len(),
            blen == b@.len(),
            alen == blen,
            i <= alen,
            forall|j: int| 0 <= j < i ==> a@[j] == b@[j],
        decreases alen - i,
    {
        if a.get_char(i) != b.get_char(i) {
            return false;
        }
        i += 1;
    }
    proof {
        assert(a@ =~= b@);
    }
    true
}

/// Picks, for an assigned code, the instruction that carries it. Used as
/// the witness in `lemma_assigned_has_instruction`.
spec fn instruction_with_code(code: u8) -> OpCode {
    if code == 0x00 {
        OpCode::STOP
    } else if code == 0x01 {
        OpCode::ADD
    } else if code == 0x02 {
        OpCode::MUL
    } else if code == 0x03 {
        OpCode::SUB
    } else if code == 0x04 {
        OpCode::DIV
    } else if code == 0x05 {
        OpCode::SDIV
    } else if code == 0x06 {
        OpCode::MOD
    } else if code == 0x07 {
        OpCode::SMOD
    } else if code == 0x08 {
        OpCode::ADDMOD
    } else if code == 0x09 {
        OpCode::MULMOD
    } else if code == 0x0a {
        OpCode::EXP
    } else if code == 0x0b {
        OpCode::SIGNEXTEND
    } else if code == 0x10 {
        OpCode::LT
    } else if code == 0x11 {
        OpCode::GT
    } else if code == 0x12 {
        OpCode::SLT
    } else if code == 0x13 {
        OpCode::SGT
    } else if code == 0x14 {
        OpCode::EQ
    } else if code == 0x15 {
        OpCode::ISZERO
    } else if code == 0x16 {
        OpCode::AND
    } else if code == 0x17 {
        OpCode::OR
    } else if code == 0x18 {
        OpCode::XOR
    } else if code == 0x19 {
        OpCode::NOT
    } else if code == 0x1a {
        OpCode::BYTE
    } else if code == 0x1b {
        OpCode::SHL
    } else if code == 0x1c {
        OpCode::SHR
    } else if code == 0x1d {
        OpCode::SAR
    } else if code == 0x20 {
        OpCode::SHA3
    } else if code == 0x30 {
        OpCode::ADDRESS
    } else if code == 0x31 {
        OpCode::BALANCE
    } else if code == 0x32 {
        OpCode::ORIGIN
    } else if code == 0x33 {
        OpCode::CALLER
    } else if code == 0x34 {
        OpCode::CALLVALUE
    } else if code == 0x35 {
        OpCode::CALLDATALOAD
    } else if code == 0x36 {
        OpCode::CALLDATASIZE
    } else if code == 0x37 {
        OpCode::CALLDATACOPY
    } else if code == 0x38 {
        OpCode::CODESIZE
    } else if code == 0x39 {
        OpCode::CODECOPY
    } else if code == 0x3a {
        OpCode::GASPRICE
    } else if code == 0x3b {
        OpCode::EXTCODESIZE
    } else if code == 0x3c {
        OpCode::EXTCODECOPY
    } else if code == 0x3d {
        OpCode::RETURNDATASIZE
    } else if code == 0x3e {
        OpCode::RETURNDATACOPY
    } else if code == 0x3f {
        OpCode::EXTCODEHASH
    } else if code == 0x40 {
        OpCode::BLOCKHASH
    } else if code == 0x41 {
        OpCode::COINBASE
    } else if code == 0x42 {
        OpCode::TIMESTAMP
    } else if code == 0x43 {
        OpCode::NUMBER
    } else if code == 0x44 {
        OpCode::DIFFICULTY
    } else if code == 0x45 {
        OpCode::GASLIMIT
    } else if code == 0x50 {
        OpCode::POP
    } else if code == 0x51 {
        OpCode::MLOAD
    } else if code == 0x52 {
        OpCode::MSTORE
    } else if code == 0x53 {
        OpCode::MSTORE8
    } else if code == 0x54 {
        OpCode::SLOAD
    } else if code == 0x55 {
        OpCode::SSTORE
    } else if code == 0x56 {
        OpCode::JUMP
    } else if code == 0x57 {
        OpCode::JUMPI
    } else if code == 0x58 {
        OpCode::PC
    } else if code == 0x59 {
        OpCode::MSIZE
    } else if code == 0x5a {
        OpCode::GAS
    } else if code == 0x5b {
        OpCode::JUMPDEST
    } else if code == 0x60 {
        OpCode::PUSH1
    } else if code == 0x61 {
        OpCode::PUSH2
    } else if code == 0x62 {
        OpCode::PUSH3
    } else if code == 0x63 {
        OpCode::PUSH4
    } else if code == 0x64 {
        OpCode::PUSH5
    } else if code == 0x65 {
        OpCode::PUSH6
    } else if code == 0x66 {
        OpCode::PUSH7
    } else if code == 0x67 {
        OpCode::PUSH8
    } else if code == 0x68 {
        OpCode::PUSH9
    } else if code == 0x69 {
        OpCode::PUSH10
    } else if code == 0x6a {
        OpCode::PUSH11
    } else if code == 0x6b {
        OpCode::PUSH12
    } else if code == 0x6c {
        OpCode::PUSH13
    } else if code == 0x6d {
        OpCode::PUSH14
    } else if code == 0x6e {
        OpCode::PUSH15
    } else if code == 0x6f {
        OpCode::PUSH16
    } else if code == 0x70 {
        OpCode::PUSH17
    } else if code == 0x71 {
        OpCode::PUSH18
    } else if code == 0x72 {
        OpCode::PUSH19
    } else if code == 0x73 {
        OpCode::PUSH20
    } else if code == 0x74 {
        OpCode::PUSH21
    } else if code == 0x75 {
        OpCode::PUSH22
    } else if code == 0x76 {
        OpCode::PUSH23
    } else if code == 0x77 {
        OpCode::PUSH24
    } else if code == 0x78 {
        OpCode::PUSH25
    } else if code == 0x79 {
        OpCode::PUSH26
    } else if code == 0x7a {
        OpCode::PUSH27
    } else if code == 0x7b {
        OpCode::PUSH28
    } else if code == 0x7c {
        OpCode::PUSH29
    } else if code == 0x7d {
        OpCode::PUSH30
    } else if code == 0x7e {
        OpCode::PUSH31
    } else if code == 0x7f {
        OpCode::PUSH32
    } else if code == 0x80 {
        OpCode::DUP1
    } else if code == 0x81 {
        OpCode::DUP2
    } else if code == 0x82 {
        OpCode::DUP3
    } else if code == 0x83 {
        OpCode::DUP4
    } else if code == 0x84 {
        OpCode::DUP5
    } else if code == 0x85 {
        OpCode::DUP6
    } else if code == 0x86 {
        OpCode::DUP7
    } else if code == 0x87 {
        OpCode::DUP8
    } else if code == 0x88 {
        OpCode::DUP9
    } else if code == 0x89 {
        OpCode::DUP10
    } else if code == 0x8a {
        OpCode::DUP11
    } else if code == 0x8b {
        OpCode::DUP12
    } else if code == 0x8c {
        OpCode::DUP13
    } else if code == 0x8d {
        OpCode::DUP14
    } else if code == 0x8e {
        OpCode::DUP15
    } else if code == 0x8f {
        OpCode::DUP16
    } else if code == 0x90 {
        OpCode::SWAP1
    } else if code == 0x91 {
        OpCode::SWAP2
    } else if code == 0x92 {
        OpCode::SWAP3
    } else if code == 0x93 {
        OpCode::SWAP4
    } else if code == 0x94 {
        OpCode::SWAP5
    } else if code == 0x95 {
        OpCode::SWAP6
    } else if code == 0x96 {
        OpCode::SWAP7
    } else if code == 0x97 {
        OpCode::SWAP8
    } else if code == 0x98 {
        OpCode::SWAP9
    } else if code == 0x99 {
        OpCode::SWAP10
    } else if code == 0x9a {
        OpCode::SWAP11
    } else if code == 0x9b {
        OpCode::SWAP12
    } else if code == 0x9c {
        OpCode::SWAP13
    } else if code == 0x9d {
        OpCode::SWAP14
    } else if code == 0x9e {
        OpCode::SWAP15
    } else if code == 0x9f {
        OpCode::SWAP16
    } else if code == 0xa0 {
        OpCode::LOG0
    } else if code == 0xa1 {
        OpCode::LOG1
    } else if code == 0xa2 {
        OpCode::LOG2
    } else if code == 0xa3 {
        OpCode::LOG3
    } else if code == 0xa4 {
        OpCode::LOG4
    } else if code == 0xf0 {
        OpCode::CREATE
    } else if code == 0xf1 {
        OpCode::CALL
    } else if code == 0xf2 {
        OpCode::CALLCODE
    } else if code == 0xf3 {
        OpCode::RETURN
    } else if code == 0xf4 {
        OpCode::DELEGATECALL
    } else if code == 0xf5 {
        OpCode::CREATE2
    } else if code == 0xfa {
        OpCode::STATICCALL
    } else if code == 0xfd {
        OpCode::REVERT
    } else if code == 0xff {
        OpCode::SUICIDE
    } else {
        OpCode::STOP
    }
}

/// Law (totality of decoding): every assigned code is the code of some
/// instruction, so `decode` succeeds on exactly the assigned bytes.
pub proof fn lemma_assigned_has_instruction(code: u8)
    requires
        is_assigned(code),
    ensures
        exists|op: OpCode| (#[trigger] op.spec_code()) == code,
{
    let op = instruction_with_code(code);
    assert(op.spec_code() == code);
}

/// Law (closedness): every instruction's code lies in the assigned part
/// of the code space, so `decode` accepts the code of every instruction.
pub proof fn lemma_code_assigned(op: OpCode)
    ensures
        is_assigned(op.spec_code()),
{
}

/// Law (code uniqueness): no two instructions share a code. Together with
/// the contract of `decode` this gives the code round trip: decoding the
/// code of an instruction leads back to that instruction.
pub proof fn lemma_code_unique(a: OpCode, b: OpCode)
    requires
        a.spec_code() == b.spec_code(),
    ensures
        a == b,
{
}

/// Law (round trip): an instruction is determined both by its code and by
/// its mnemonic. The code of `op` is assigned, and any instruction that
/// shares either the code or the mnemonic of `op` is `op` itself; by the
/// contracts of `decode` and `encode`, decoding `op`'s code and encoding
/// `op`'s mnemonic therefore both lead back to `op`.
pub proof fn lemma_round_trip(op: OpCode, other: OpCode)
    ensures
        is_assigned(op.spec_code()),
        other.spec_code() == op.spec_code() ==> other == op,
        other.spec_mnemonic() == op.spec_mnemonic() ==> other == op,
{
    lemma_code_assigned(op);
    if other.spec_code() == op.spec_code() {
        lemma_code_unique(op, other);
    }
    if other.spec_mnemonic() == op.spec_mnemonic() {
        lemma_mnemonic_unique(op, other);
    }
}

/// Law (mnemonic uniqueness): no two instructions share a mnemonic.
/// Together with the contract of `encode` this gives the mnemonic round
/// trip: encoding the mnemonic of an instruction leads back to that
/// instruction.
pub proof fn lemma_mnemonic_unique(a: OpCode, b: OpCode)
    requires
        a.spec_mnemonic() == b.spec_mnemonic(),
    ensures
        a == b,
{
    broadcast use vstd::string::group_string_axioms;

    reveal_strlit("STOP");
    reveal_strlit("ADD");
    reveal_strlit("MUL");
    reveal_strlit("SUB");
    reveal_strlit("DIV");
    reveal_strlit("SDIV");
    reveal_strlit("MOD");
    reveal_strlit("SMOD");
    reveal_strlit("ADDMOD");
    reveal_strlit("MULMOD");
    reveal_strlit("EXP");
    reveal_strlit("SIGNEXTEND");
    reveal_strlit("LT");
    reveal_strlit("GT");
    reveal_strlit("SLT");
    reveal_strlit("SGT");
    reveal_strlit("EQ");
    reveal_strlit("ISZERO");
    reveal_strlit("AND");
    reveal_strlit("OR");
    reveal_strlit("XOR");
    reveal_strlit("NOT");
    reveal_strlit("BYTE");
    reveal_strlit("SHL");
    reveal_strlit("SHR");
    reveal_strlit("SAR");
    reveal_strlit("SHA3");
    reveal_strlit("ADDRESS");
    reveal_strlit("BALANCE");
    reveal_strlit("ORIGIN");
    reveal_strlit("CALLER");
    reveal_strlit("CALLVALUE");
    reveal_strlit("CALLDATALOAD");
    reveal_strlit("CALLDATASIZE");
    reveal_strlit("CALLDATACOPY");
    reveal_strlit("CODESIZE");
    reveal_strlit("CODECOPY");
    reveal_strlit("GASPRICE");
    reveal_strlit("EXTCODESIZE");
    reveal_strlit("EXTCODECOPY");
    reveal_strlit("RETURNDATASIZE");
    reveal_strlit("RETURNDATACOPY");
    reveal_strlit("EXTCODEHASH");
    reveal_strlit("BLOCKHASH");
    reveal_strlit("COINBASE");
    reveal_strlit("TIMESTAMP");
    reveal_strlit("NUMBER");
    reveal_strlit("DIFFICULTY");
    reveal_strlit("GASLIMIT");
    reveal_strlit("POP");
    reveal_strlit("MLOAD");
    reveal_strlit("MSTORE");
    reveal_strlit("MSTORE8");
    reveal_strlit("SLOAD");
    reveal_strlit("SSTORE");
    reveal_strlit("JUMP");
    reveal_strlit("JUMPI");
    reveal_strlit("PC");
    reveal_strlit("MSIZE");
    reveal_strlit("GAS");
    reveal_strlit("JUMPDEST");
    reveal_strlit("PUSH1");
    reveal_strlit("PUSH2");
    reveal_strlit("PUSH3");
    reveal_strlit("PUSH4");
    reveal_strlit("PUSH5");
    reveal_strlit("PUSH6");
    reveal_strlit("PUSH7");
    reveal_strlit("PUSH8");
    reveal_strlit("PUSH9");
    reveal_strlit("PUSH10");
    reveal_strlit("PUSH11");
    reveal_strlit("PUSH12");
    reveal_strlit("PUSH13");
    reveal_strlit("PUSH14");
    reveal_strlit("PUSH15");
    reveal_strlit("PUSH16");
    reveal_strlit("PUSH17");
    reveal_strlit("PUSH18");
    reveal_strlit("PUSH19");
    reveal_strlit("PUSH20");
    reveal_strlit("PUSH21");
    reveal_strlit("PUSH22");
    reveal_strlit("PUSH23");
    reveal_strlit("PUSH24");
    reveal_strlit("PUSH25");
    reveal_strlit("PUSH26");
    reveal_strlit("PUSH27");
    reveal_strlit("PUSH28");
    reveal_strlit("PUSH29");
    reveal_strlit("PUSH30");
    reveal_strlit("PUSH31");
    reveal_strlit("PUSH32");
    reveal_strlit("DUP1");
    reveal_strlit("DUP2");
    reveal_strlit("DUP3");
    reveal_strlit("DUP4");
    reveal_strlit("DUP5");
    reveal_strlit("DUP6");
    reveal_strlit("DUP7");
    reveal_strlit("DUP8");
    reveal_strlit("DUP9");
    reveal_strlit("DUP10");
    reveal_strlit("DUP11");
    reveal_strlit("DUP12");
    reveal_strlit("DUP13");
    reveal_strlit("DUP14");
    reveal_strlit("DUP15");
    reveal_strlit("DUP16");
    reveal_strlit("SWAP1");
    reveal_strlit("SWAP2");
    reveal_strlit("SWAP3");
    reveal_strlit("SWAP4");
    reveal_strlit("SWAP5");
    reveal_strlit("SWAP6");
    reveal_strlit("SWAP7");
    reveal_strlit("SWAP8");
    reveal_strlit("SWAP9");
    reveal_strlit("SWAP10");
    reveal_strlit("SWAP11");
    reveal_strlit("SWAP12");
    reveal_strlit("SWAP13");
    reveal_strlit("SWAP14");
    reveal_strlit("SWAP15");
    reveal_strlit("SWAP16");
    reveal_strlit("LOG0");
    reveal_strlit("LOG1");
    reveal_strlit("LOG2");
    reveal_strlit("LOG3");
    reveal_strlit("LOG4");
    reveal_strlit("CREATE");
    reveal_strlit("CALL");
    reveal_strlit("CALLCODE");
    reveal_strlit("RETURN");
    reveal_strlit("DELEGATECALL");
    reveal_strlit("CREATE2");
    reveal_strlit("REVERT");
    reveal_strlit("STATICCALL");
    reveal_strlit("SUICIDE");

    assert("STOP"@.len() == 4);
    assert("ADD"@.len() == 3);
    assert("MUL"@.len() == 3);
    assert("SUB"@.len() == 3);
    assert("DIV"@.len() == 3);
    assert("SDIV"@.len() == 4);
    assert("MOD"@.len() == 3);
    assert("SMOD"@.len() == 4);
    assert("ADDMOD"@.len() == 6);
    assert("MULMOD"@.len() == 6);
    assert("EXP"@.len() == 3);
    assert("SIGNEXTEND"@.len() == 10);
    assert("LT"@.len() == 2);
    assert("GT"@.len() == 2);
    assert("SLT"@.len() == 3);
    assert("SGT"@.len() == 3);
    assert("EQ"@.len() == 2);
    assert("ISZERO"@.len() == 6);
    assert("AND"@.len() == 3);
    assert("OR"@.len() == 2);
    assert("XOR"@.len() == 3);
    assert("NOT"@.len() == 3);
    assert("BYTE"@.len() == 4);
    assert("SHL"@.len() == 3);
    assert("SHR"@.len() == 3);
    assert("SAR"@.len() == 3);
    assert("SHA3"@.len() == 4);
    assert("ADDRESS"@.len() == 7);
    assert("BALANCE"@.len() == 7);
    assert("ORIGIN"@.len() == 6);
    assert("CALLER"@.len() == 6);
    assert("CALLVALUE"@.len() == 9);
    assert("CALLDATALOAD"@.len() == 12);
    assert("CALLDATASIZE"@.len() == 12);
    assert("CALLDATACOPY"@.len() == 12);
    assert("CODESIZE"@.len() == 8);
    assert("CODECOPY"@.len() == 8);
    assert("GASPRICE"@.len() == 8);
    assert("EXTCODESIZE"@.len() == 11);
    assert("EXTCODECOPY"@.len() == 11);
    assert("RETURNDATASIZE"@.len() == 14);
    assert("RETURNDATACOPY"@.len() == 14);
    assert("EXTCODEHASH"@.len() == 11);
    assert("BLOCKHASH"@.len() == 9);
    assert("COINBASE"@.len() == 8);
    assert("TIMESTAMP"@.len() == 9);
    assert("NUMBER"@.len() == 6);
    assert("DIFFICULTY"@.len() == 10);
    assert("GASLIMIT"@.len() == 8);
    assert("POP"@.len() == 3);
    assert("MLOAD"@.len() == 5);
    assert("MSTORE"@.len() == 6);
    assert("MSTORE8"@.len() == 7);
    assert("SLOAD"@.len() == 5);
    assert("SSTORE"@.len() == 6);
    assert("JUMP"@.len() == 4);
    assert("JUMPI"@.len() == 5);
    assert("PC"@.len() == 2);
    assert("MSIZE"@.len() == 5);
    assert("GAS"@.len() == 3);
    assert("JUMPDEST"@.len() == 8);
    assert("PUSH1"@.len() == 5);
    assert("PUSH2"@.len() == 5);
    assert("PUSH3"@.len() == 5);
    assert("PUSH4"@.len() == 5);
    assert("PUSH5"@.len() == 5);
    assert("PUSH6"@.len() == 5);
    assert("PUSH7"@.len() == 5);
    assert("PUSH8"@.len() == 5);
    assert("PUSH9"@.len() == 5);
    assert("PUSH10"@.len() == 6);
    assert("PUSH11"@.len() == 6);
    assert("PUSH12"@.len() == 6);
    assert("PUSH13"@.len() == 6);
    assert("PUSH14"@.len() == 6);
    assert("PUSH15"@.len() == 6);
    assert("PUSH16"@.len() == 6);
    assert("PUSH17"@.len() == 6);
    assert("PUSH18"@.len() == 6);
    assert("PUSH19"@.len() == 6);
    assert("PUSH20"@.len() == 6);
    assert("PUSH21"@.len() == 6);
    assert("PUSH22"@.len() == 6);
    assert("PUSH23"@.len() == 6);
    assert("PUSH24"@.len() == 6);
    assert("PUSH25"@.len() == 6);
    assert("PUSH26"@.len() == 6);
    assert("PUSH27"@.len() == 6);
    assert("PUSH28"@.len() == 6);
    assert("PUSH29"@.len() == 6);
    assert("PUSH30"@.len() == 6);
    assert("PUSH31"@.len() == 6);
    assert("PUSH32"@.len() == 6);
    assert("DUP1"@.len() == 4);
    assert("DUP2"@.len() == 4);
    assert("DUP3"@.len() == 4);
    assert("DUP4"@.len() == 4);
    assert("DUP5"@.len() == 4);
    assert("DUP6"@.len() == 4);
    assert("DUP7"@.len() == 4);
    assert("DUP8"@.len() == 4);
    assert("DUP9"@.len() == 4);
    assert("DUP10"@.len() == 5);
    assert("DUP11"@.len() == 5);
    assert("DUP12"@.len() == 5);
    assert("DUP13"@.len() == 5);
    assert("DUP14"@.len() == 5);
    assert("DUP15"@.len() == 5);
    assert("DUP16"@.len() == 5);
    assert("SWAP1"@.len() == 5);
    assert("SWAP2"@.len() == 5);
    assert("SWAP3"@.len() == 5);
    assert("SWAP4"@.len() == 5);
    assert("SWAP5"@.len() == 5);
    assert("SWAP6"@.len() == 5);
    assert("SWAP7"@.len() == 5);
    assert("SWAP8"@.len() == 5);
    assert("SWAP9"@.len() == 5);
    assert("SWAP10"@.len() == 6);
    assert("SWAP11"@.len() == 6);
    assert("SWAP12"@.len() == 6);
    assert("SWAP13"@.len() == 6);
    assert("SWAP14"@.len() == 6);
    assert("SWAP15"@.len() == 6);
    assert("SWAP16"@.len() == 6);
    assert("LOG0"@.len() == 4);
    assert("LOG1"@.len() == 4);
    assert("LOG2"@.len() == 4);
    assert("LOG3"@.len() == 4);
    assert("LOG4"@.len() == 4);
    assert("CREATE"@.len() == 6);
    assert("CALL"@.len() == 4);
    assert("CALLCODE"@.len() == 8);
    assert("RETURN"@.len() == 6);
    assert("DELEGATECALL"@.len() == 12);
    assert("CREATE2"@.len() == 7);
    assert("REVERT"@.len() == 6);
    assert("STATICCALL"@.len() == 10);
    assert("SUICIDE"@.len() == 7);

    assert("STOP"@[0] == 'S' && "STOP"@[1] == 'T' && "STOP"@[2] == 'O' && "STOP"@[3] == 'P');
    assert("ADD"@[0] == 'A' && "ADD"@[1] == 'D' && "ADD"@[2] == 'D');
    assert("MUL"@[0] == 'M' && "MUL"@[1] == 'U' && "MUL"@[2] == 'L');
    assert("SUB"@[0] == 'S' && "SUB"@[1] == 'U' && "SUB"@[2] == 'B');
    assert("DIV"@[0] == 'D' && "DIV"@[1] == 'I' && "DIV"@[2] == 'V');
    assert("SDIV"@[0] == 'S' && "SDIV"@[1] == 'D' && "SDIV"@[2] == 'I' && "SDIV"@[3] == 'V');
    assert("MOD"@[0] == 'M' && "MOD"@[1] == 'O' && "MOD"@[2] == 'D');
    assert("SMOD"@[0] == 'S' && "SMOD"@[1] == 'M' && "SMOD"@[2] == 'O' && "SMOD"@[3] == 'D');
    assert("ADDMOD"@[0] == 'A' && "ADDMOD"@[1] == 'D' && "ADDMOD"@[2] == 'D' && "ADDMOD"@[3] == 'M' && "ADDMOD"@[4] == 'O' && "ADDMOD"@[5] == 'D');
    assert("MULMOD"@[0] == 'M' && "MULMOD"@[1] == 'U' && "MULMOD"@[2] == 'L' && "MULMOD"@[3] == 'M' && "MULMOD"@[4] == 'O' && "MULMOD"@[5] == 'D');
    assert("EXP"@[0] == 'E' && "EXP"@[1] == 'X' && "EXP"@[2] == 'P');
    assert("SIGNEXTEND"@[0] == 'S' && "SIGNEXTEND"@[1] == 'I' && "SIGNEXTEND"@[2] == 'G' && "SIGNEXTEND"@[3] == 'N' && "SIGNEXTEND"@[4] == 'E' && "SIGNEXTEND"@[5] == 'X' && "SIGNEXTEND"@[6] == 'T' && "SIGNEXTEND"@[7] == 'E' && "SIGNEXTEND"@[8] == 'N' && "SIGNEXTEND"@[9] == 'D');
    assert("LT"@[0] == 'L' && "LT"@[1] == 'T');
    assert("GT"@[0] == 'G' && "GT"@[1] == 'T');
    assert("SLT"@[0] == 'S' && "SLT"@[1] == 'L' && "SLT"@[2] == 'T');
    assert("SGT"@[0] == 'S' && "SGT"@[1] == 'G' && "SGT"@[2] == 'T');
    assert("EQ"@[0] == 'E' && "EQ"@[1] == 'Q');
    assert("ISZERO"@[0] == 'I' && "ISZERO"@[1] == 'S' && "ISZERO"@[2] == 'Z' && "ISZERO"@[3] == 'E' && "ISZERO"@[4] == 'R' && "ISZERO"@[5] == 'O');
    assert("AND"@[0] == 'A' && "AND"@[1] == 'N' && "AND"@[2] == 'D');
    assert("OR"@[0] == 'O' && "OR"@[1] == 'R');
    assert("XOR"@[0] == 'X' && "XOR"@[1] == 'O' && "XOR"@[2] == 'R');
    assert("NOT"@[0] == 'N' && "NOT"@[1] == 'O' && "NOT"@[2] == 'T');
    assert("BYTE"@[0] == 'B' && "BYTE"@[1] == 'Y' && "BYTE"@[2] == 'T' && "BYTE"@[3] == 'E');
    assert("SHL"@[0] == 'S' && "SHL"@[1] == 'H' && "SHL"@[2] == 'L');
    assert("SHR"@[0] == 'S' && "SHR"@[1] == 'H' && "SHR"@[2] == 'R');
    assert("SAR"@[0] == 'S' && "SAR"@[1] == 'A' && "SAR"@[2] == 'R');
    assert("SHA3"@[0] == 'S' && "SHA3"@[1] == 'H' && "SHA3"@[2] == 'A' && "SHA3"@[3] == '3');
    assert("ADDRESS"@[0] == 'A' && "ADDRESS"@[1] == 'D' && "ADDRESS"@[2] == 'D' && "ADDRESS"@[3] == 'R' && "ADDRESS"@[4] == 'E' && "ADDRESS"@[5] == 'S' && "ADDRESS"@[6] == 'S');
    assert("BALANCE"@[0] == 'B' && "BALANCE"@[1] == 'A' && "BALANCE"@[2] == 'L' && "BALANCE"@[3] == 'A' && "BALANCE"@[4] == 'N' && "BALANCE"@[5] == 'C' && "BALANCE"@[6] == 'E');
    assert("ORIGIN"@[0] == 'O' && "ORIGIN"@[1] == 'R' && "ORIGIN"@[2] == 'I' && "ORIGIN"@[3] == 'G' && "ORIGIN"@[4] == 'I' && "ORIGIN"@[5] == 'N');
    assert("CALLER"@[0] == 'C' && "CALLER"@[1] == 'A' && "CALLER"@[2] == 'L' && "CALLER"@[3] == 'L' && "CALLER"@[4] == 'E' && "CALLER"@[5] == 'R');
    assert("CALLVALUE"@[0] == 'C' && "CALLVALUE"@[1] == 'A' && "CALLVALUE"@[2] == 'L' && "CALLVALUE"@[3] == 'L' && "CALLVALUE"@[4] == 'V' && "CALLVALUE"@[5] == 'A' && "CALLVALUE"@[6] == 'L' && "CALLVALUE"@[7] == 'U' && "CALLVALUE"@[8] == 'E');
    assert("CALLDATALOAD"@[0] == 'C' && "CALLDATALOAD"@[1] == 'A' && "CALLDATALOAD"@[2] == 'L' && "CALLDATALOAD"@[3] == 'L' && "CALLDATALOAD"@[4] == 'D' && "CALLDATALOAD"@[5] == 'A' && "CALLDATALOAD"@[6] == 'T' && "CALLDATALOAD"@[7] == 'A' && "CALLDATALOAD"@[8] == 'L' && "CALLDATALOAD"@[9] == 'O' && "CALLDATALOAD"@[10] == 'A' && "CALLDATALOAD"@[11] == 'D');
    assert("CALLDATASIZE"@[0] == 'C' && "CALLDATASIZE"@[1] == 'A' && "CALLDATASIZE"@[2] == 'L' && "CALLDATASIZE"@[3] == 'L' && "CALLDATASIZE"@[4] == 'D' && "CALLDATASIZE"@[5] == 'A' && "CALLDATASIZE"@[6] == 'T' && "CALLDATASIZE"@[7] == 'A' && "CALLDATASIZE"@[8] == 'S' && "CALLDATASIZE"@[9] == 'I' && "CALLDATASIZE"@[10] == 'Z' && "CALLDATASIZE"@[11] == 'E');
    assert("CALLDATACOPY"@[0] == 'C' && "CALLDATACOPY"@[1] == 'A' && "CALLDATACOPY"@[2] == 'L' && "CALLDATACOPY"@[3] == 'L' && "CALLDATACOPY"@[4] == 'D' && "CALLDATACOPY"@[5] == 'A' && "CALLDATACOPY"@[6] == 'T' && "CALLDATACOPY"@[7] == 'A' && "CALLDATACOPY"@[8] == 'C' && "CALLDATACOPY"@[9] == 'O' && "CALLDATACOPY"@[10] == 'P' && "CALLDATACOPY"@[11] == 'Y');
    assert("CODESIZE"@[0] == 'C' && "CODESIZE"@[1] == 'O' && "CODESIZE"@[2] == 'D' && "CODESIZE"@[3] == 'E' && "CODESIZE"@[4] == 'S' && "CODESIZE"@[5] == 'I' && "CODESIZE"@[6] == 'Z' && "CODESIZE"@[7] == 'E');
    assert("CODECOPY"@[0] == 'C' && "CODECOPY"@[1] == 'O' && "CODECOPY"@[2] == 'D' && "CODECOPY"@[3] == 'E' && "CODECOPY"@[4] == 'C' && "CODECOPY"@[5] == 'O' && "CODECOPY"@[6] == 'P' && "CODECOPY"@[7] == 'Y');
    assert("GASPRICE"@[0] == 'G' && "GASPRICE"@[1] == 'A' && "GASPRICE"@[2] == 'S' && "GASPRICE"@[3] == 'P' && "GASPRICE"@[4] == 'R' && "GASPRICE"@[5] == 'I' && "GASPRICE"@[6] == 'C' && "GASPRICE"@[7] == 'E');
    assert("EXTCODESIZE"@[0] == 'E' && "EXTCODESIZE"@[1] == 'X' && "EXTCODESIZE"@[2] == 'T' && "EXTCODESIZE"@[3] == 'C' && "EXTCODESIZE"@[4] == 'O' && "EXTCODESIZE"@[5] == 'D' && "EXTCODESIZE"@[6] == 'E' && "EXTCODESIZE"@[7] == 'S' && "EXTCODESIZE"@[8] == 'I' && "EXTCODESIZE"@[9] == 'Z' && "EXTCODESIZE"@[10] == 'E');
    assert("EXTCODECOPY"@[0] == 'E' && "EXTCODECOPY"@[1] == 'X' && "EXTCODECOPY"@[2] == 'T' && "EXTCODECOPY"@[3] == 'C' && "EXTCODECOPY"@[4] == 'O' && "EXTCODECOPY"@[5] == 'D' && "EXTCODECOPY"@[6] == 'E' && "EXTCODECOPY"@[7] == 'C' && "EXTCODECOPY"@[8] == 'O' && "EXTCODECOPY"@[9] == 'P' && "EXTCODECOPY"@[10] == 'Y');
    assert("RETURNDATASIZE"@[0] == 'R' && "RETURNDATASIZE"@[1] == 'E' && "RETURNDATASIZE"@[2] == 'T' && "RETURNDATASIZE"@[3] == 'U' && "RETURNDATASIZE"@[4] == 'R' && "RETURNDATASIZE"@[5] == 'N' && "RETURNDATASIZE"@[6] == 'D' && "RETURNDATASIZE"@[7] == 'A' && "RETURNDATASIZE"@[8] == 'T' && "RETURNDATASIZE"@[9] == 'A' && "RETURNDATASIZE"@[10] == 'S' && "RETURNDATASIZE"@[11] == 'I' && "RETURNDATASIZE"@[12] == 'Z' && "RETURNDATASIZE"@[13] == 'E');
    assert("RETURNDATACOPY"@[0] == 'R' && "RETURNDATACOPY"@[1] == 'E' && "RETURNDATACOPY"@[2] == 'T' && "RETURNDATACOPY"@[3] == 'U' && "RETURNDATACOPY"@[4] == 'R' && "RETURNDATACOPY"@[5] == 'N' && "RETURNDATACOPY"@[6] == 'D' && "RETURNDATACOPY"@[7] == 'A' && "RETURNDATACOPY"@[8] == 'T' && "RETURNDATACOPY"@[9] == 'A' && "RETURNDATACOPY"@[10] == 'C' && "RETURNDATACOPY"@[11] == 'O' && "RETURNDATACOPY"@[12] == 'P' && "RETURNDATACOPY"@[13] == 'Y');
    assert("EXTCODEHASH"@[0] == 'E' && "EXTCODEHASH"@[1] == 'X' && "EXTCODEHASH"@[2] == 'T' && "EXTCODEHASH"@[3] == 'C' && "EXTCODEHASH"@[4] == 'O' && "EXTCODEHASH"@[5] == 'D' && "EXTCODEHASH"@[6] == 'E' && "EXTCODEHASH"@[7] == 'H' && "EXTCODEHASH"@[8] == 'A' && "EXTCODEHASH"@[9] == 'S' && "EXTCODEHASH"@[10] == 'H');
    assert("BLOCKHASH"@[0] == 'B' && "BLOCKHASH"@[1] == 'L' && "BLOCKHASH"@[2] == 'O' && "BLOCKHASH"@[3] == 'C' && "BLOCKHASH"@[4] == 'K' && "BLOCKHASH"@[5] == 'H' && "BLOCKHASH"@[6] == 'A' && "BLOCKHASH"@[7] == 'S' && "BLOCKHASH"@[8] == 'H');
    assert("COINBASE"@[0] == 'C' && "COINBASE"@[1] == 'O' && "COINBASE"@[2] == 'I' && "COINBASE"@[3] == 'N' && "COINBASE"@[4] == 'B' && "COINBASE"@[5] == 'A' && "COINBASE"@[6] == 'S' && "COINBASE"@[7] == 'E');
    assert("TIMESTAMP"@[0] == 'T' && "TIMESTAMP"@[1] == 'I' && "TIMESTAMP"@[2] == 'M' && "TIMESTAMP"@[3] == 'E' && "TIMESTAMP"@[4] == 'S' && "TIMESTAMP"@[5] == 'T' && "TIMESTAMP"@[6] == 'A' && "TIMESTAMP"@[7] == 'M' && "TIMESTAMP"@[8] == 'P');
    assert("NUMBER"@[0] == 'N' && "NUMBER"@[1] == 'U' && "NUMBER"@[2] == 'M' && "NUMBER"@[3] == 'B' && "NUMBER"@[4] == 'E' && "NUMBER"@[5] == 'R');
    assert("DIFFICULTY"@[0] == 'D' && "DIFFICULTY"@[1] == 'I' && "DIFFICULTY"@[2] == 'F' && "DIFFICULTY"@[3] == 'F' && "DIFFICULTY"@[4] == 'I' && "DIFFICULTY"@[5] == 'C' && "DIFFICULTY"@[6] == 'U' && "DIFFICULTY"@[7] == 'L' && "DIFFICULTY"@[8] == 'T' && "DIFFICULTY"@[9] == 'Y');
    assert("GASLIMIT"@[0] == 'G' && "GASLIMIT"@[1] == 'A' && "GASLIMIT"@[2] == 'S' && "GASLIMIT"@[3] == 'L' && "GASLIMIT"@[4] == 'I' && "GASLIMIT"@[5] == 'M' && "GASLIMIT"@[6] == 'I' && "GASLIMIT"@[7] == 'T');
    assert("POP"@[0] == 'P' && "POP"@[1] == 'O' && "POP"@[2] == 'P');
    assert("MLOAD"@[0] == 'M' && "MLOAD"@[1] == 'L' && "MLOAD"@[2] == 'O' && "MLOAD"@[3] == 'A' && "MLOAD"@[4] == 'D');
    assert("MSTORE"@[0] == 'M' && "MSTORE"@[1] == 'S' && "MSTORE"@[2] == 'T' && "MSTORE"@[3] == 'O' && "MSTORE"@[4] == 'R' && "MSTORE"@[5] == 'E');
    assert("MSTORE8"@[0] == 'M' && "MSTORE8"@[1] == 'S' && "MSTORE8"@[2] == 'T' && "MSTORE8"@[3] == 'O' && "MSTORE8"@[4] == 'R' && "MSTORE8"@[5] == 'E' && "MSTORE8"@[6] == '8');
    assert("SLOAD"@[0] == 'S' && "SLOAD"@[1] == 'L' && "SLOAD"@[2] == 'O' && "SLOAD"@[3] == 'A' && "SLOAD"@[4] == 'D');
    assert("SSTORE"@[0] == 'S' && "SSTORE"@[1] == 'S' && "SSTORE"@[2] == 'T' && "SSTORE"@[3] == 'O' && "SSTORE"@[4] == 'R' && "SSTORE"@[5] == 'E');
    assert("JUMP"@[0] == 'J' && "JUMP"@[1] == 'U' && "JUMP"@[2] == 'M' && "JUMP"@[3] == 'P');
    assert("JUMPI"@[0] == 'J' && "JUMPI"@[1] == 'U' && "JUMPI"@[2] == 'M' && "JUMPI"@[3] == 'P' && "JUMPI"@[4] == 'I');
    assert("PC"@[0] == 'P' && "PC"@[1] == 'C');
    assert("MSIZE"@[0] == 'M' && "MSIZE"@[1] == 'S' && "MSIZE"@[2] == 'I' && "MSIZE"@[3] == 'Z' && "MSIZE"@[4] == 'E');
    assert("GAS"@[0] == 'G' && "GAS"@[1] == 'A' && "GAS"@[2] == 'S');
    assert("JUMPDEST"@[0] == 'J' && "JUMPDEST"@[1] == 'U' && "JUMPDEST"@[2] == 'M' && "JUMPDEST"@[3] == 'P' && "JUMPDEST"@[4] == 'D' && "JUMPDEST"@[5] == 'E' && "JUMPDEST"@[6] == 'S' && "JUMPDEST"@[7] == 'T');
    assert("PUSH1"@[0] == 'P' && "PUSH1"@[1] == 'U' && "PUSH1"@[2] == 'S' && "PUSH1"@[3] == 'H' && "PUSH1"@[4] == '1');
    assert("PUSH2"@[0] == 'P' && "PUSH2"@[1] == 'U' && "PUSH2"@[2] == 'S' && "PUSH2"@[3] == 'H' && "PUSH2"@[4] == '2');
    assert("PUSH3"@[0] == 'P' && "PUSH3"@[1] == 'U' && "PUSH3"@[2] == 'S' && "PUSH3"@[3] == 'H' && "PUSH3"@[4] == '3');
    assert("PUSH4"@[0] == 'P' && "PUSH4"@[1] == 'U' && "PUSH4"@[2] == 'S' && "PUSH4"@[3] == 'H' && "PUSH4"@[4] == '4');
    assert("PUSH5"@[0] == 'P' && "PUSH5"@[1] == 'U' && "PUSH5"@[2] == 'S' && "PUSH5"@[3] == 'H' && "PUSH5"@[4] == '5');
    assert("PUSH6"@[0] == 'P' && "PUSH6"@[1] == 'U' && "PUSH6"@[2] == 'S' && "PUSH6"@[3] == 'H' && "PUSH6"@[4] == '6');
    assert("PUSH7"@[0] == 'P' && "PUSH7"@[1] == 'U' && "PUSH7"@[2] == 'S' && "PUSH7"@[3] == 'H' && "PUSH7"@[4] == '7');
    assert("PUSH8"@[0] == 'P' && "PUSH8"@[1] == 'U' && "PUSH8"@[2] == 'S' && "PUSH8"@[3] == 'H' && "PUSH8"@[4] == '8');
    assert("PUSH9"@[0] == 'P' && "PUSH9"@[1] == 'U' && "PUSH9"@[2] == 'S' && "PUSH9"@[3] == 'H' && "PUSH9"@[4] == '9');
    assert("PUSH10"@[0] == 'P' && "PUSH10"@[1] == 'U' && "PUSH10"@[2] == 'S' && "PUSH10"@[3] == 'H' && "PUSH10"@[4] == '1' && "PUSH10"@[5] == '0');
    assert("PUSH11"@[0] == 'P' && "PUSH11"@[1] == 'U' && "PUSH11"@[2] == 'S' && "PUSH11"@[3] == 'H' && "PUSH11"@[4] == '1' && "PUSH11"@[5] == '1');
    assert("PUSH12"@[0] == 'P' && "PUSH12"@[1] == 'U' && "PUSH12"@[2] == 'S' && "PUSH12"@[3] == 'H' && "PUSH12"@[4] == '1' && "PUSH12"@[5] == '2');
    assert("PUSH13"@[0] == 'P' && "PUSH13"@[1] == 'U' && "PUSH13"@[2] == 'S' && "PUSH13"@[3] == 'H' && "PUSH13"@[4] == '1' && "PUSH13"@[5] == '3');
    assert("PUSH14"@[0] == 'P' && "PUSH14"@[1] == 'U' && "PUSH14"@[2] == 'S' && "PUSH14"@[3] == 'H' && "PUSH14"@[4] == '1' && "PUSH14"@[5] == '4');
    assert("PUSH15"@[0] == 'P' && "PUSH15"@[1] == 'U' && "PUSH15"@[2] == 'S' && "PUSH15"@[3] == 'H' && "PUSH15"@[4] == '1' && "PUSH15"@[5] == '5');
    assert("PUSH16"@[0] == 'P' && "PUSH16"@[1] == 'U' && "PUSH16"@[2] == 'S' && "PUSH16"@[3] == 'H' && "PUSH16"@[4] == '1' && "PUSH16"@[5] == '6');
    assert("PUSH17"@[0] == 'P' && "PUSH17"@[1] == 'U' && "PUSH17"@[2] == 'S' && "PUSH17"@[3] == 'H' && "PUSH17"@[4] == '1' && "PUSH17"@[5] == '7');
    assert("PUSH18"@[0] == 'P' && "PUSH18"@[1] == 'U' && "PUSH18"@[2] == 'S' && "PUSH18"@[3] == 'H' && "PUSH18"@[4] == '1' && "PUSH18"@[5] == '8');
    assert("PUSH19"@[0] == 'P' && "PUSH19"@[1] == 'U' && "PUSH19"@[2] == 'S' && "PUSH19"@[3] == 'H' && "PUSH19"@[4] == '1' && "PUSH19"@[5] == '9');
    assert("PUSH20"@[0] == 'P' && "PUSH20"@[1] == 'U' && "PUSH20"@[2] == 'S' && "PUSH20"@[3] == 'H' && "PUSH20"@[4] == '2' && "PUSH20"@[5] == '0');
    assert("PUSH21"@[0] == 'P' && "PUSH21"@[1] == 'U' && "PUSH21"@[2] == 'S' && "PUSH21"@[3] == 'H' && "PUSH21"@[4] == '2' && "PUSH21"@[5] == '1');
    assert("PUSH22"@[0] == 'P' && "PUSH22"@[1] == 'U' && "PUSH22"@[2] == 'S' && "PUSH22"@[3] == 'H' && "PUSH22"@[4] == '2' && "PUSH22"@[5] == '2');
    assert("PUSH23"@[0] == 'P' && "PUSH23"@[1] == 'U' && "PUSH23"@[2] == 'S' && "PUSH23"@[3] == 'H' && "PUSH23"@[4] == '2' && "PUSH23"@[5] == '3');
    assert("PUSH24"@[0] == 'P' && "PUSH24"@[1] == 'U' && "PUSH24"@[2] == 'S' && "PUSH24"@[3] == 'H' && "PUSH24"@[4] == '2' && "PUSH24"@[5] == '4');
    assert("PUSH25"@[0] == 'P' && "PUSH25"@[1] == 'U' && "PUSH25"@[2] == 'S' && "PUSH25"@[3] == 'H' && "PUSH25"@[4] == '2' && "PUSH25"@[5] == '5');
    assert("PUSH26"@[0] == 'P' && "PUSH26"@[1] == 'U' && "PUSH26"@[2] == 'S' && "PUSH26"@[3] == 'H' && "PUSH26"@[4] == '2' && "PUSH26"@[5] == '6');
    assert("PUSH27"@[0] == 'P' && "PUSH27"@[1] == 'U' && "PUSH27"@[2] == 'S' && "PUSH27"@[3] == 'H' && "PUSH27"@[4] == '2' && "PUSH27"@[5] == '7');
    assert("PUSH28"@[0] == 'P' && "PUSH28"@[1] == 'U' && "PUSH28"@[2] == 'S' && "PUSH28"@[3] == 'H' && "PUSH28"@[4] == '2' && "PUSH28"@[5] == '8');
    assert("PUSH29"@[0] == 'P' && "PUSH29"@[1] == 'U' && "PUSH29"@[2] == 'S' && "PUSH29"@[3] == 'H' && "PUSH29"@[4] == '2' && "PUSH29"@[5] == '9');
    assert("PUSH30"@[0] == 'P' && "PUSH30"@[1] == 'U' && "PUSH30"@[2] == 'S' && "PUSH30"@[3] == 'H' && "PUSH30"@[4] == '3' && "PUSH30"@[5] == '0');
    assert("PUSH31"@[0] == 'P' && "PUSH31"@[1] == 'U' && "PUSH31"@[2] == 'S' && "PUSH31"@[3] == 'H' && "PUSH31"@[4] == '3' && "PUSH31"@[5] == '1');
    assert("PUSH32"@[0] == 'P' && "PUSH32"@[1] == 'U' && "PUSH32"@[2] == 'S' && "PUSH32"@[3] == 'H' && "PUSH32"@[4] == '3' && "PUSH32"@[5] == '2');
    assert("DUP1"@[0] == 'D' && "DUP1"@[1] == 'U' && "DUP1"@[2] == 'P' && "DUP1"@[3] == '1');
    assert("DUP2"@[0] == 'D' && "DUP2"@[1] == 'U' && "DUP2"@[2] == 'P' && "DUP2"@[3] == '2');
    assert("DUP3"@[0] == 'D' && "DUP3"@[1] == 'U' && "DUP3"@[2] == 'P' && "DUP3"@[3] == '3');
    assert("DUP4"@[0] == 'D' && "DUP4"@[1] == 'U' && "DUP4"@[2] == 'P' && "DUP4"@[3] == '4');
    assert("DUP5"@[0] == 'D' && "DUP5"@[1] == 'U' && "DUP5"@[2] == 'P' && "DUP5"@[3] == '5');
    assert("DUP6"@[0] == 'D' && "DUP6"@[1] == 'U' && "DUP6"@[2] == 'P' && "DUP6"@[3] == '6');
    assert("DUP7"@[0] == 'D' && "DUP7"@[1] == 'U' && "DUP7"@[2] == 'P' && "DUP7"@[3] == '7');
    assert("DUP8"@[0] == 'D' && "DUP8"@[1] == 'U' && "DUP8"@[2] == 'P' && "DUP8"@[3] == '8');
    assert("DUP9"@[0] == 'D' && "DUP9"@[1] == 'U' && "DUP9"@[2] == 'P' && "DUP9"@[3] == '9');
    assert("DUP10"@[0] == 'D' && "DUP10"@[1] == 'U' && "DUP10"@[2] == 'P' && "DUP10"@[3] == '1' && "DUP10"@[4] == '0');
    assert("DUP11"@[0] == 'D' && "DUP11"@[1] == 'U' && "DUP11"@[2] == 'P' && "DUP11"@[3] == '1' && "DUP11"@[4] == '1');
    assert("DUP12"@[0] == 'D' && "DUP12"@[1] == 'U' && "DUP12"@[2] == 'P' && "DUP12"@[3] == '1' && "DUP12"@[4] == '2');
    assert("DUP13"@[0] == 'D' && "DUP13"@[1] == 'U' && "DUP13"@[2] == 'P' && "DUP13"@[3] == '1' && "DUP13"@[4] == '3');
    assert("DUP14"@[0] == 'D' && "DUP14"@[1] == 'U' && "DUP14"@[2] == 'P' && "DUP14"@[3] == '1' && "DUP14"@[4] == '4');
    assert("DUP15"@[0] == 'D' && "DUP15"@[1] == 'U' && "DUP15"@[2] == 'P' && "DUP15"@[3] == '1' && "DUP15"@[4] == '5');
    assert("DUP16"@[0] == 'D' && "DUP16"@[1] == 'U' && "DUP16"@[2] == 'P' && "DUP16"@[3] == '1' && "DUP16"@[4] == '6');
    assert("SWAP1"@[0] == 'S' && "SWAP1"@[1] == 'W' && "SWAP1"@[2] == 'A' && "SWAP1"@[3] == 'P' && "SWAP1"@[4] == '1');
    assert("SWAP2"@[0] == 'S' && "SWAP2"@[1] == 'W' && "SWAP2"@[2] == 'A' && "SWAP2"@[3] == 'P' && "SWAP2"@[4] == '2');
    assert("SWAP3"@[0] == 'S' && "SWAP3"@[1] == 'W' && "SWAP3"@[2] == 'A' && "SWAP3"@[3] == 'P' && "SWAP3"@[4] == '3');
    assert("SWAP4"@[0] == 'S' && "SWAP4"@[1] == 'W' && "SWAP4"@[2] == 'A' && "SWAP4"@[3] == 'P' && "SWAP4"@[4] == '4');
    assert("SWAP5"@[0] == 'S' && "SWAP5"@[1] == 'W' && "SWAP5"@[2] == 'A' && "SWAP5"@[3] == 'P' && "SWAP5"@[4] == '5');
    assert("SWAP6"@[0] == 'S' && "SWAP6"@[1] == 'W' && "SWAP6"@[2] == 'A' && "SWAP6"@[3] == 'P' && "SWAP6"@[4] == '6');
    assert("SWAP7"@[0] == 'S' && "SWAP7"@[1] == 'W' && "SWAP7"@[2] == 'A' && "SWAP7"@[3] == 'P' && "SWAP7"@[4] == '7');
    assert("SWAP8"@[0] == 'S' && "SWAP8"@[1] == 'W' && "SWAP8"@[2] == 'A' && "SWAP8"@[3] == 'P' && "SWAP8"@[4] == '8');
    assert("SWAP9"@[0] == 'S' && "SWAP9"@[1] == 'W' && "SWAP9"@[2] == 'A' && "SWAP9"@[3] == 'P' && "SWAP9"@[4] == '9');
    assert("SWAP10"@[0] == 'S' && "SWAP10"@[1] == 'W' && "SWAP10"@[2] == 'A' && "SWAP10"@[3] == 'P' && "SWAP10"@[4] == '1' && "SWAP10"@[5] == '0');
    assert("SWAP11"@[0] == 'S' && "SWAP11"@[1] == 'W' && "SWAP11"@[2] == 'A' && "SWAP11"@[3] == 'P' && "SWAP11"@[4] == '1' && "SWAP11"@[5] == '1');
    assert("SWAP12"@[0] == 'S' && "SWAP12"@[1] == 'W' && "SWAP12"@[2] == 'A' && "SWAP12"@[3] == 'P' && "SWAP12"@[4] == '1' && "SWAP12"@[5] == '2');
    assert("SWAP13"@[0] == 'S' && "SWAP13"@[1] == 'W' && "SWAP13"@[2] == 'A' && "SWAP13"@[3] == 'P' && "SWAP13"@[4] == '1' && "SWAP13"@[5] == '3');
    assert("SWAP14"@[0] == 'S' && "SWAP14"@[1] == 'W' && "SWAP14"@[2] == 'A' && "SWAP14"@[3] == 'P' && "SWAP14"@[4] == '1' && "SWAP14"@[5] == '4');
    assert("SWAP15"@[0] == 'S' && "SWAP15"@[1] == 'W' && "SWAP15"@[2] == 'A' && "SWAP15"@[3] == 'P' && "SWAP15"@[4] == '1' && "SWAP15"@[5] == '5');
    assert("SWAP16"@[0] == 'S' && "SWAP16"@[1] == 'W' && "SWAP16"@[2] == 'A' && "SWAP16"@[3] == 'P' && "SWAP16"@[4] == '1' && "SWAP16"@[5] == '6');
    assert("LOG0"@[0] == 'L' && "LOG0"@[1] == 'O' && "LOG0"@[2] == 'G' && "LOG0"@[3] == '0');
    assert("LOG1"@[0] == 'L' && "LOG1"@[1] == 'O' && "LOG1"@[2] == 'G' && "LOG1"@[3] == '1');
    assert("LOG2"@[0] == 'L' && "LOG2"@[1] == 'O' && "LOG2"@[2] == 'G' && "LOG2"@[3] == '2');
    assert("LOG3"@[0] == 'L' && "LOG3"@[1] == 'O' && "LOG3"@[2] == 'G' && "LOG3"@[3] == '3');
    assert("LOG4"@[0] == 'L' && "LOG4"@[1] == 'O' && "LOG4"@[2] == 'G' && "LOG4"@[3] == '4');
    assert("CREATE"@[0] == 'C' && "CREATE"@[1] == 'R' && "CREATE"@[2] == 'E' && "CREATE"@[3] == 'A' && "CREATE"@[4] == 'T' && "CREATE"@[5] == 'E');
    assert("CALL"@[0] == 'C' && "CALL"@[1] == 'A' && "CALL"@[2] == 'L' && "CALL"@[3] == 'L');
    assert("CALLCODE"@[0] == 'C' && "CALLCODE"@[1] == 'A' && "CALLCODE"@[2] == 'L' && "CALLCODE"@[3] == 'L' && "CALLCODE"@[4] == 'C' && "CALLCODE"@[5] == 'O' && "CALLCODE"@[6] == 'D' && "CALLCODE"@[7] == 'E');
    assert("RETURN"@[0] == 'R' && "RETURN"@[1] == 'E' && "RETURN"@[2] == 'T' && "RETURN"@[3] == 'U' && "RETURN"@[4] == 'R' && "RETURN"@[5] == 'N');
    assert("DELEGATECALL"@[0] == 'D' && "DELEGATECALL"@[1] == 'E' && "DELEGATECALL"@[2] == 'L' && "DELEGATECALL"@[3] == 'E' && "DELEGATECALL"@[4] == 'G' && "DELEGATECALL"@[5] == 'A' && "DELEGATECALL"@[6] == 'T' && "DELEGATECALL"@[7] == 'E' && "DELEGATECALL"@[8] == 'C' && "DELEGATECALL"@[9] == 'A' && "DELEGATECALL"@[10] == 'L' && "DELEGATECALL"@[11] == 'L');
    assert("CREATE2"@[0] == 'C' && "CREATE2"@[1] == 'R' && "CREATE2"@[2] == 'E' && "CREATE2"@[3] == 'A' && "CREATE2"@[4] == 'T' && "CREATE2"@[5] == 'E' && "CREATE2"@[6] == '2');
    assert("REVERT"@[0] == 'R' && "REVERT"@[1] == 'E' && "REVERT"@[2] == 'V' && "REVERT"@[3] == 'E' && "REVERT"@[4] == 'R' && "REVERT"@[5] == 'T');
    assert("STATICCALL"@[0] == 'S' && "STATICCALL"@[1] == 'T' && "STATICCALL"@[2] == 'A' && "STATICCALL"@[3] == 'T' && "STATICCALL"@[4] == 'I' && "STATICCALL"@[5] == 'C' && "STATICCALL"@[6] == 'C' && "STATICCALL"@[7] == 'A' && "STATICCALL"@[8] == 'L' && "STATICCALL"@[9] == 'L');
    assert("SUICIDE"@[0] == 'S' && "SUICIDE"@[1] == 'U' && "SUICIDE"@[2] == 'I' && "SUICIDE"@[3] == 'C' && "SUICIDE"@[4] == 'I' && "SUICIDE"@[5] == 'D' && "SUICIDE"@[6] == 'E');
}

} // verus!
