//! Instruction operands: condition codes and the kinds of operand.
use vstd::prelude::*;
use crate::cpu::registers::{CPURegisters, Register16, Register8};

verus! {

/// The flag conditions of conditional jumps, calls and returns.
#[derive(Debug, Clone, Copy, PartialEq, Eq, Structural)]
pub enum ConditionCode {
    Z,
    NZ,
    C,
    NC,
}

impl ConditionCode {
    pub open spec fn spec_matches(&self, registers: &CPURegisters) -> bool {
        match self {
            ConditionCode::Z => registers.af.spec_f().spec_z(),
            ConditionCode::NZ => !registers.af.spec_f().spec_z(),
            ConditionCode::C => registers.af.spec_f().spec_c(),
            ConditionCode::NC => !registers.af.spec_f().spec_c(),
        }
    }

    /// Whether the flags satisfy the condition.
    #[verifier::when_used_as_spec(spec_matches)]
    pub fn matches(&self, registers: &CPURegisters) -> (r: bool)
        ensures
            r == self.spec_matches(registers),
    {
        match self {
            ConditionCode::Z => registers.af.f().z(),
            ConditionCode::NZ => !registers.af.f().z(),
            ConditionCode::C => registers.af.f().c(),
            ConditionCode::NC => !registers.af.f().c(),
        }
    }

    /// The condition's name as the disassembler prints it.
    pub open spec fn spec_name(self) -> Seq<char> {
        match self {
            ConditionCode::Z => "Z"@,
            ConditionCode::NZ => "NZ"@,
            ConditionCode::C => "C"@,
            ConditionCode::NC => "NC"@,
        }
    }

    pub fn as_ref(&self) -> (r: &'static str)
        ensures
            r@ == self.spec_name(),
    {
        match self {
            ConditionCode::Z => "Z",
            ConditionCode::NZ => "NZ",
            ConditionCode::C => "C",
            ConditionCode::NC => "NC",
        }
    }
}

/// The kinds of operand an instruction can take.
#[derive(Debug)]
pub enum Operand {
    Register8(Register8),
    Register16(Register16),
    Int8(u8),
    Int16(u16),
    Offset(i8),
    BitIndex(u8),
    ConditionCode(ConditionCode),
    RSTVector(u8),
}

/// NZ holds exactly where Z does not, and NC exactly where C does not.
pub proof fn lemma_condition_complements(registers: CPURegisters)
    ensures
        ConditionCode::NZ.spec_matches(&registers) == !ConditionCode::Z.spec_matches(&registers),
        ConditionCode::NC.spec_matches(&registers) == !ConditionCode::C.spec_matches(&registers),
{
}

/// Each condition reads one flag: Z holds exactly when the Z flag is set, NZ
/// exactly when it is clear, C exactly when the C flag is set, NC exactly when
/// it is clear.
pub proof fn lemma_condition_reads_flags(registers: CPURegisters)
    ensures
        ConditionCode::Z.spec_matches(&registers) == registers.af.spec_f().spec_z(),
        ConditionCode::NZ.spec_matches(&registers) == !registers.af.spec_f().spec_z(),
        ConditionCode::C.spec_matches(&registers) == registers.af.spec_f().spec_c(),
        ConditionCode::NC.spec_matches(&registers) == !registers.af.spec_f().spec_c(),
{
}

} // verus!
