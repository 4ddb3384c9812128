use vstd::prelude::*;

verus! {

/// The table of all 256 code points: which operation each performs and how it addresses its operand.
pub open spec fn spec_decode(code_point: u8) -> (OpCode, AccessMode) {
    match code_point {
        0 => (OpCode::BRK, AccessMode::Imp),
        1 => (OpCode::ORA, AccessMode::IzX),
        2 => (OpCode::JAM, AccessMode::Imp),
        3 => (OpCode::SLO, AccessMode::IzX),
        4 => (OpCode::NOP, AccessMode::ZP),
        5 => (OpCode::ORA, AccessMode::ZP),
        6 => (OpCode::ASL, AccessMode::ZP),
        7 => (OpCode::SLO, AccessMode::ZP),
        8 => (OpCode::PHP, AccessMode::Imp),
        9 => (OpCode::ORA, AccessMode::Imm),
        10 => (OpCode::ASL, AccessMode::Imp),
        11 => (OpCode::ANC, AccessMode::Imm),
        12 => (OpCode::NOP, AccessMode::Abs),
        13 => (OpCode::ORA, AccessMode::Abs),
        14 => (OpCode::ASL, AccessMode::Abs),
        15 => (OpCode::SLO, AccessMode::Abs),
        16 => (OpCode::BPL, AccessMode::Rel),
        17 => (OpCode::ORA, AccessMode::IzY),
        18 => (OpCode::JAM, AccessMode::Imp),
        19 => (OpCode::SLO, AccessMode::IzY),
        20 => (OpCode::NOP, AccessMode::ZPX),
        21 => (OpCode::ORA, AccessMode::ZPX),
        22 => (OpCode::ASL, AccessMode::ZPX),
        23 => (OpCode::SLO, AccessMode::ZPX),
        24 => (OpCode::CLC, AccessMode::Imp),
        25 => (OpCode::ORA, AccessMode::AbY),
        26 => (OpCode::NOP, AccessMode::Imp),
        27 => (OpCode::SLO, AccessMode::AbY),
        28 => (OpCode::NOP, AccessMode::AbX),
        29 => (OpCode::ORA, AccessMode::AbX),
        30 => (OpCode::ASL, AccessMode::AbX),
        31 => (OpCode::SLO, AccessMode::AbX),
        32 => (OpCode::JSR, AccessMode::Abs),
        33 => (OpCode::AND, AccessMode::IzX),
        34 => (OpCode::JAM, AccessMode::Imp),
        35 => (OpCode::RLA, AccessMode::IzX),
        36 => (OpCode::BIT, AccessMode::ZP),
        37 => (OpCode::AND, AccessMode::ZP),
        38 => (OpCode::ROL, AccessMode::ZP),
        39 => (OpCode::RLA, AccessMode::ZP),
        40 => (OpCode::PLP, AccessMode::Imp),
        41 => (OpCode::AND, AccessMode::Imm),
        42 => (OpCode::ROL, AccessMode::Imp),
        43 => (OpCode::ANC, AccessMode::Imm),
        44 => (OpCode::BIT, AccessMode::Abs),
        45 => (OpCode::AND, AccessMode::Abs),
        46 => (OpCode::ROL, AccessMode::Abs),
        47 => (OpCode::RLA, AccessMode::Abs),
        48 => (OpCode::BMI, AccessMode::Rel),
        49 => (OpCode::AND, AccessMode::IzY),
        50 => (OpCode::JAM, AccessMode::Imp),
        51 => (OpCode::RLA, AccessMode::IzY),
        52 => (OpCode::NOP, AccessMode::ZPX),
        53 => (OpCode::AND, AccessMode::ZPX),
        54 => (OpCode::ROL, AccessMode::ZPX),
        55 => (OpCode::RLA, AccessMode::ZPX),
        56 => (OpCode::SEC, AccessMode::Imp),
        57 => (OpCode::AND, AccessMode::AbY),
        58 => (OpCode::NOP, AccessMode::Imp),
        59 => (OpCode::RLA, AccessMode::AbY),
        60 => (OpCode::NOP, AccessMode::AbX),
        61 => (OpCode::AND, AccessMode::AbX),
        62 => (OpCode::ROL, AccessMode::AbX),
        63 => (OpCode::RLA, AccessMode::AbX),
        64 => (OpCode::RTI, AccessMode::Imp),
        65 => (OpCode::EOR, AccessMode::IzX),
        66 => (OpCode::JAM, AccessMode::Imp),
        67 => (OpCode::SRE, AccessMode::IzX),
        68 => (OpCode::NOP, AccessMode::ZP),
        69 => (OpCode::EOR, AccessMode::ZP),
        70 => (OpCode::LSR, AccessMode::ZP),
        71 => (OpCode::SRE, AccessMode::ZP),
        72 => (OpCode::PHA, AccessMode::Imp),
        73 => (OpCode::EOR, AccessMode::Imm),
        74 => (OpCode::LSR, AccessMode::Imp),
        75 => (OpCode::ALR, AccessMode::Imm),
        76 => (OpCode::JMP, AccessMode::Abs),
        77 => (OpCode::EOR, AccessMode::Abs),
        78 => (OpCode::LSR, AccessMode::Abs),
        79 => (OpCode::SRE, AccessMode::Abs),
        80 => (OpCode::BVC, AccessMode::Rel),
        81 => (OpCode::EOR, AccessMode::IzY),
        82 => (OpCode::JAM, AccessMode::Imp),
        83 => (OpCode::SRE, AccessMode::IzY),
        84 => (OpCode::NOP, AccessMode::ZPX),
        85 => (OpCode::EOR, AccessMode::ZPX),
        86 => (OpCode::LSR, AccessMode::ZPX),
        87 => (OpCode::SRE, AccessMode::ZPX),
        88 => (OpCode::CLI, AccessMode::Imp),
        89 => (OpCode::EOR, AccessMode::AbY),
        90 => (OpCode::NOP, AccessMode::Imp),
        91 => (OpCode::SRE, AccessMode::AbY),
        92 => (OpCode::NOP, AccessMode::AbX),
        93 => (OpCode::EOR, AccessMode::AbX),
        94 => (OpCode::LSR, AccessMode::AbX),
        95 => (OpCode::SRE, AccessMode::AbX),
        96 => (OpCode::RTS, AccessMode::Imp),
        97 => (OpCode::ADC, AccessMode::IzX),
        98 => (OpCode::JAM, AccessMode::Imp),
        99 => (OpCode::RRA, AccessMode::IzX),
        100 => (OpCode::NOP, AccessMode::ZP),
        101 => (OpCode::ADC, AccessMode::ZP),
        102 => (OpCode::ROR, AccessMode::ZP),
        103 => (OpCode::RRA, AccessMode::ZP),
        104 => (OpCode::PLA, AccessMode::Imp),
        105 => (OpCode::ADC, AccessMode::Imm),
        106 => (OpCode::ROR, AccessMode::Imp),
        107 => (OpCode::ARR, AccessMode::Imm),
        108 => (OpCode::JMP, AccessMode::Ind),
        109 => (OpCode::ADC, AccessMode::Abs),
        110 => (OpCode::ROR, AccessMode::Abs),
        111 => (OpCode::RRA, AccessMode::Abs),
        112 => (OpCode::BVS, AccessMode::Rel),
        113 => (OpCode::ADC, AccessMode::IzY),
        114 => (OpCode::JAM, AccessMode::Imp),
        115 => (OpCode::RRA, AccessMode::IzY),
        116 => (OpCode::NOP, AccessMode::ZPX),
        117 => (OpCode::ADC, AccessMode::ZPX),
        118 => (OpCode::ROR, AccessMode::ZPX),
        119 => (OpCode::RRA, AccessMode::ZPX),
        120 => (OpCode::SEI, AccessMode::Imp),
        121 => (OpCode::ADC, AccessMode::AbY),
        122 => (OpCode::NOP, AccessMode::Imp),
        123 => (OpCode::RRA, AccessMode::AbY),
        124 => (OpCode::NOP, AccessMode::AbX),
        125 => (OpCode::ADC, AccessMode::AbX),
        126 => (OpCode::ROR, AccessMode::AbX),
        127 => (OpCode::RRA, AccessMode::AbX),
        128 => (OpCode::NOP, AccessMode::Imm),
        129 => (OpCode::STA, AccessMode::IzX),
        130 => (OpCode::NOP, AccessMode::Imm),
        131 => (OpCode::SAX, AccessMode::IzX),
        132 => (OpCode::STY, AccessMode::ZP),
        133 => (OpCode::STA, AccessMode::ZP),
        134 => (OpCode::STX, AccessMode::ZP),
        135 => (OpCode::SAX, AccessMode::ZP),
        136 => (OpCode::DEY, AccessMode::Imp),
        137 => (OpCode::NOP, AccessMode::Imm),
        138 => (OpCode::TXA, AccessMode::Imp),
        139 => (OpCode::XAA, AccessMode::Imm),
        140 => (OpCode::STY, AccessMode::Abs),
        141 => (OpCode::STA, AccessMode::Abs),
        142 => (OpCode::STX, AccessMode::Abs),
        143 => (OpCode::SAX, AccessMode::Abs),
        144 => (OpCode::BCC, AccessMode::Rel),
        145 => (OpCode::STA, AccessMode::IzY),
        146 => (OpCode::JAM, AccessMode::Imp),
        147 => (OpCode::AHX, AccessMode::IzY),
        148 => (OpCode::STY, AccessMode::ZPX),
        149 => (OpCode::STA, AccessMode::ZPX),
        150 => (OpCode::STX, AccessMode::ZPY),
        151 => (OpCode::SAX, AccessMode::ZPY),
        152 => (OpCode::TYA, AccessMode::Imp),
        153 => (OpCode::STA, AccessMode::AbY),
        154 => (OpCode::TXS, AccessMode::Imp),
        155 => (OpCode::TAS, AccessMode::AbY),
        156 => (OpCode::SHY, AccessMode::AbX),
        157 => (OpCode::STA, AccessMode::AbX),
        158 => (OpCode::SHX, AccessMode::AbY),
        159 => (OpCode::AHX, AccessMode::AbY),
        160 => (OpCode::LDY, AccessMode::Imm),
        161 => (OpCode::LDA, AccessMode::IzX),
        162 => (OpCode::LDX, AccessMode::Imm),
        163 => (OpCode::LAX, AccessMode::IzX),
        164 => (OpCode::LDY, AccessMode::ZP),
        165 => (OpCode::LDA, AccessMode::ZP),
        166 => (OpCode::LDX, AccessMode::ZP),
        167 => (OpCode::LAX, AccessMode::ZP),
        168 => (OpCode::TAY, AccessMode::Imp),
        169 => (OpCode::LDA, AccessMode::Imm),
        170 => (OpCode::TAX, AccessMode::Imp),
        171 => (OpCode::LAX, AccessMode::Imm),
        172 => (OpCode::LDY, AccessMode::Abs),
        173 => (OpCode::LDA, AccessMode::Abs),
        174 => (OpCode::LDX, AccessMode::Abs),
        175 => (OpCode::LAX, AccessMode::Abs),
        176 => (OpCode::BCS, AccessMode::Rel),
        177 => (OpCode::LDA, AccessMode::IzY),
        178 => (OpCode::JAM, AccessMode::Imp),
        179 => (OpCode::LAX, AccessMode::IzY),
        180 => (OpCode::LDY, AccessMode::ZPX),
        181 => (OpCode::LDA, AccessMode::ZPX),
        182 => (OpCode::LDX, AccessMode::ZPY),
        183 => (OpCode::LAX, AccessMode::ZPY),
        184 => (OpCode::CLV, AccessMode::Imp),
        185 => (OpCode::LDA, AccessMode::AbY),
        186 => (OpCode::TSX, AccessMode::Imp),
        187 => (OpCode::LAS, AccessMode::AbY),
        188 => (OpCode::LDY, AccessMode::AbX),
        189 => (OpCode::LDA, AccessMode::AbX),
        190 => (OpCode::LDX, AccessMode::AbY),
        191 => (OpCode::LAX, AccessMode::AbY),
        192 => (OpCode::CPY, AccessMode::Imm),
        193 => (OpCode::CMP, AccessMode::IzX),
        194 => (OpCode::NOP, AccessMode::Imm),
        195 => (OpCode::DCP, AccessMode::IzX),
        196 => (OpCode::CPY, AccessMode::ZP),
        197 => (OpCode::CMP, AccessMode::ZP),
        198 => (OpCode::DEC, AccessMode::ZP),
        199 => (OpCode::DCP, AccessMode::ZP),
        200 => (OpCode::INY, AccessMode::Imp),
        201 => (OpCode::CMP, AccessMode::Imm),
        202 => (OpCode::DEX, AccessMode::Imp),
        203 => (OpCode::AXS, AccessMode::Imm),
        204 => (OpCode::CPY, AccessMode::Abs),
        205 => (OpCode::CMP, AccessMode::Abs),
        206 => (OpCode::DEC, AccessMode::Abs),
        207 => (OpCode::DCP, AccessMode::Abs),
        208 => (OpCode::BNE, AccessMode::Rel),
        209 => (OpCode::CMP, AccessMode::IzY),
        210 => (OpCode::JAM, AccessMode::Imp),
        211 => (OpCode::DCP, AccessMode::IzY),
        212 => (OpCode::NOP, AccessMode::ZPX),
        213 => (OpCode::CMP, AccessMode::ZPX),
        214 => (OpCode::DEC, AccessMode::ZPX),
        215 => (OpCode::DCP, AccessMode::ZPX),
        216 => (OpCode::CLD, AccessMode::Imp),
        217 => (OpCode::CMP, AccessMode::AbY),
        218 => (OpCode::NOP, AccessMode::Imp),
        219 => (OpCode::DCP, AccessMode::AbY),
        220 => (OpCode::NOP, AccessMode::AbX),
        221 => (OpCode::CMP, AccessMode::AbX),
        222 => (OpCode::DEC, AccessMode::AbX),
        223 => (OpCode::DCP, AccessMode::AbX),
        224 => (OpCode::CPX, AccessMode::Imm),
        225 => (OpCode::SBC, AccessMode::IzX),
        226 => (OpCode::NOP, AccessMode::Imm),
        227 => (OpCode::ISC, AccessMode::IzX),
        228 => (OpCode::CPX, AccessMode::ZP),
        229 => (OpCode::SBC, AccessMode::ZP),
        230 => (OpCode::INC, AccessMode::ZP),
        231 => (OpCode::ISC, AccessMode::ZP),
        232 => (OpCode::INX, AccessMode::Imp),
        233 => (OpCode::SBC, AccessMode::Imm),
        234 => (OpCode::NOP, AccessMode::Imp),
        235 => (OpCode::SBC, AccessMode::Imm),
        236 => (OpCode::CPX, AccessMode::Abs),
        237 => (OpCode::SBC, AccessMode::Abs),
        238 => (OpCode::INC, AccessMode::Abs),
        239 => (OpCode::ISC, AccessMode::Abs),
        240 => (OpCode::BEQ, AccessMode::Rel),
        241 => (OpCode::SBC, AccessMode::IzY),
        242 => (OpCode::JAM, AccessMode::Imp),
        243 => (OpCode::ISC, AccessMode::IzY),
        244 => (OpCode::NOP, AccessMode::ZPX),
        245 => (OpCode::SBC, AccessMode::ZPX),
        246 => (OpCode::INC, AccessMode::ZPX),
        247 => (OpCode::ISC, AccessMode::ZPX),
        248 => (OpCode::SED, AccessMode::Imp),
        249 => (OpCode::SBC, AccessMode::AbY),
        250 => (OpCode::NOP, AccessMode::Imp),
        251 => (OpCode::ISC, AccessMode::AbY),
        252 => (OpCode::NOP, AccessMode::AbX),
        253 => (OpCode::SBC, AccessMode::AbX),
        254 => (OpCode::INC, AccessMode::AbX),
        255 => (OpCode::ISC, AccessMode::AbX),
    }
}

/// Which sequence of CPU steps an operation performs in an addressing mode, if the combination exists.
pub open spec fn spec_steps_for(access_mode: AccessMode, op_code: OpCode) -> Option<StepSequence> {
    match (access_mode, op_code) {
            (AccessMode::Imp, OpCode::BRK) => Some(StepSequence::Brk),
            (AccessMode::Imp, OpCode::RTI) => Some(StepSequence::Rti),
            (AccessMode::Imp, OpCode::RTS) => Some(StepSequence::Rts),
            (AccessMode::Imp, OpCode::PHA) => Some(StepSequence::Pha),
            (AccessMode::Imp, OpCode::PHP) => Some(StepSequence::Php),
            (AccessMode::Imp, OpCode::PLA) => Some(StepSequence::Pla),
            (AccessMode::Imp, OpCode::PLP) => Some(StepSequence::Plp),
            (AccessMode::Abs, OpCode::JSR) => Some(StepSequence::Jsr),
            (AccessMode::Abs, OpCode::JMP) => Some(StepSequence::JmpAbsolute),
            (AccessMode::Ind, OpCode::JMP) => Some(StepSequence::JmpIndirect),
            (AccessMode::Imp, _) => Some(StepSequence::ImplicitAddressing),
            (AccessMode::Imm, _) => Some(StepSequence::ImmediateAddressing),
            (AccessMode::Rel, _) => Some(StepSequence::RelativeAddressing),
            (AccessMode::Abs, OpCode::LDA | OpCode::LDX | OpCode::LDY | OpCode::EOR | OpCode::AND | OpCode::ORA | OpCode::ADC | OpCode::SBC | OpCode::CMP | OpCode::CPX | OpCode::CPY | OpCode::BIT | OpCode::LAX | OpCode::NOP) => Some(StepSequence::AbsoluteRead),
            (AccessMode::AbX, OpCode::LDA | OpCode::LDX | OpCode::LDY | OpCode::EOR | OpCode::AND | OpCode::ORA | OpCode::ADC | OpCode::SBC | OpCode::CMP | OpCode::LAX | OpCode::NOP) => Some(StepSequence::AbsoluteXRead),
            (AccessMode::AbY, OpCode::LDA | OpCode::LDX | OpCode::LDY | OpCode::EOR | OpCode::AND | OpCode::ORA | OpCode::ADC | OpCode::SBC | OpCode::CMP | OpCode::LAX | OpCode::NOP | OpCode::LAS) => Some(StepSequence::AbsoluteYRead),
            (AccessMode::ZP, OpCode::LDA | OpCode::LDX | OpCode::LDY | OpCode::EOR | OpCode::AND | OpCode::ORA | OpCode::ADC | OpCode::SBC | OpCode::CMP | OpCode::CPX | OpCode::CPY | OpCode::BIT | OpCode::LAX | OpCode::NOP) => Some(StepSequence::ZeroPageRead),
            (AccessMode::ZPX, OpCode::LDA | OpCode::LDX | OpCode::LDY | OpCode::EOR | OpCode::AND | OpCode::ORA | OpCode::ADC | OpCode::SBC | OpCode::CMP | OpCode::LAX | OpCode::NOP) => Some(StepSequence::ZeroPageXRead),
            (AccessMode::ZPY, OpCode::LDA | OpCode::LDX | OpCode::LDY | OpCode::EOR | OpCode::AND | OpCode::ORA | OpCode::ADC | OpCode::SBC | OpCode::CMP | OpCode::LAX | OpCode::NOP) => Some(StepSequence::ZeroPageYRead),
            (AccessMode::IzX, OpCode::LDA | OpCode::EOR | OpCode::AND | OpCode::ORA | OpCode::ADC | OpCode::SBC | OpCode::CMP | OpCode::LAX) => Some(StepSequence::IndexedIndirectRead),
            (AccessMode::IzY, OpCode::LDA | OpCode::EOR | OpCode::AND | OpCode::ORA | OpCode::ADC | OpCode::SBC | OpCode::CMP | OpCode::LAX) => Some(StepSequence::IndirectIndexedRead),
            (AccessMode::Abs, OpCode::STA | OpCode::STX | OpCode::STY | OpCode::SAX) => Some(StepSequence::AbsoluteWrite),
            (AccessMode::AbX, OpCode::STA | OpCode::STX | OpCode::STY | OpCode::SHY) => Some(StepSequence::AbsoluteXWrite),
            (AccessMode::AbY, OpCode::STA | OpCode::STX | OpCode::STY | OpCode::SHX | OpCode::AHX | OpCode::TAS) => Some(StepSequence::AbsoluteYWrite),
            (AccessMode::ZP, OpCode::STA | OpCode::STX | OpCode::STY | OpCode::SAX) => Some(StepSequence::ZeroPageWrite),
            (AccessMode::ZPX, OpCode::STA | OpCode::STX | OpCode::STY | OpCode::SAX) => Some(StepSequence::ZeroPageXWrite),
            (AccessMode::ZPY, OpCode::STA | OpCode::STX | OpCode::STY | OpCode::SAX) => Some(StepSequence::ZeroPageYWrite),
            (AccessMode::IzX, OpCode::STA | OpCode::SAX) => Some(StepSequence::IndexedIndirectWrite),
            (AccessMode::IzY, OpCode::STA | OpCode::AHX) => Some(StepSequence::IndirectIndexedWrite),
            (AccessMode::Abs, OpCode::ASL | OpCode::LSR | OpCode::ROL | OpCode::ROR | OpCode::INC | OpCode::DEC | OpCode::SLO | OpCode::SRE | OpCode::RLA | OpCode::RRA | OpCode::ISC | OpCode::DCP) => Some(StepSequence::AbsoluteReadModifyWrite),
            (AccessMode::AbX, OpCode::ASL | OpCode::LSR | OpCode::ROL | OpCode::ROR | OpCode::INC | OpCode::DEC | OpCode::SLO | OpCode::SRE | OpCode::RLA | OpCode::RRA | OpCode::ISC | OpCode::DCP) => Some(StepSequence::AbsoluteXReadModifyWrite),
            (AccessMode::AbY, OpCode::ASL | OpCode::LSR | OpCode::ROL | OpCode::ROR | OpCode::INC | OpCode::DEC | OpCode::SLO | OpCode::SRE | OpCode::RLA | OpCode::RRA | OpCode::ISC | OpCode::DCP) => Some(StepSequence::AbsoluteYReadModifyWrite),
            (AccessMode::ZP, OpCode::ASL | OpCode::LSR | OpCode::ROL | OpCode::ROR | OpCode::INC | OpCode::DEC | OpCode::SLO | OpCode::SRE | OpCode::RLA | OpCode::RRA | OpCode::ISC | OpCode::DCP) => Some(StepSequence::ZeroPageReadModifyWrite),
            (AccessMode::ZPX, OpCode::ASL | OpCode::LSR | OpCode::ROL | OpCode::ROR | OpCode::INC | OpCode::DEC | OpCode::SLO | OpCode::SRE | OpCode::RLA | OpCode::RRA | OpCode::ISC | OpCode::DCP) => Some(StepSequence::ZeroPageXReadModifyWrite),
            (AccessMode::ZPY, OpCode::ASL | OpCode::LSR | OpCode::ROL | OpCode::ROR | OpCode::INC | OpCode::DEC | OpCode::SLO | OpCode::SRE | OpCode::RLA | OpCode::RRA | OpCode::ISC | OpCode::DCP) => Some(StepSequence::ZeroPageYReadModifyWrite),
            (AccessMode::IzX, OpCode::SLO | OpCode::SRE | OpCode::RLA | OpCode::RRA | OpCode::ISC | OpCode::DCP) => Some(StepSequence::IndexedIndirectReadModifyWrite),
            (AccessMode::IzY, OpCode::SLO | OpCode::SRE | OpCode::RLA | OpCode::RRA | OpCode::ISC | OpCode::DCP) => Some(StepSequence::IndirectIndexedReadModifyWrite),
            _ => None,
    }
}

/// Every code point decodes to an operation and addressing mode that has a step sequence.
pub proof fn lemma_every_code_point_has_steps()
    ensures
        forall|code_point: u8| spec_steps_for(spec_decode(code_point).1, spec_decode(code_point).0) is Some,
{
    assert forall|code_point: u8| spec_steps_for(spec_decode(code_point).1, spec_decode(code_point).0) is Some by {
        lemma_code_point_has_steps(code_point);
    }
}

#[verifier::rlimit(50)]
proof fn lemma_code_point_has_steps(code_point: u8)
    ensures
        spec_steps_for(spec_decode(code_point).1, spec_decode(code_point).0) is Some,
{
}

/// How an operation uses the memory its addressing mode reaches.
#[derive(PartialEq, Eq, Clone, Copy, Debug, Structural)]
pub enum MemoryAccess {
    Read,
    Write,
    ReadModifyWrite,
}

/// How an operation uses its memory operand: loads, arithmetic, compares and bit tests read it;
/// stores write it; shifts, rotates, increments, decrements and their undocumented combinations
/// read, modify and write it back. Other operations have no memory operand.
pub open spec fn memory_access(op: OpCode) -> Option<MemoryAccess> {
    match op {
        OpCode::LDA | OpCode::LDX | OpCode::LDY | OpCode::EOR | OpCode::AND | OpCode::ORA | OpCode::ADC
            | OpCode::SBC | OpCode::CMP | OpCode::CPX | OpCode::CPY | OpCode::BIT | OpCode::LAX | OpCode::NOP
            | OpCode::LAS => Some(MemoryAccess::Read),
        OpCode::STA | OpCode::STX | OpCode::STY | OpCode::SAX | OpCode::SHY | OpCode::SHX | OpCode::AHX
            | OpCode::TAS => Some(MemoryAccess::Write),
        OpCode::ASL | OpCode::LSR | OpCode::ROL | OpCode::ROR | OpCode::INC | OpCode::DEC | OpCode::SLO
            | OpCode::SRE | OpCode::RLA | OpCode::RRA | OpCode::ISC | OpCode::DCP => Some(MemoryAccess::ReadModifyWrite),
        _ => None,
    }
}

/// The addressing mode and the memory access that a step sequence for a memory operand performs;
/// nothing for the sequences of the other instructions.
pub open spec fn sequence_addressing(steps: StepSequence) -> Option<(AccessMode, MemoryAccess)> {
    match steps {
        StepSequence::AbsoluteRead => Some((AccessMode::Abs, MemoryAccess::Read)),
        StepSequence::AbsoluteWrite => Some((AccessMode::Abs, MemoryAccess::Write)),
        StepSequence::AbsoluteReadModifyWrite => Some((AccessMode::Abs, MemoryAccess::ReadModifyWrite)),
        StepSequence::AbsoluteXRead => Some((AccessMode::AbX, MemoryAccess::Read)),
        StepSequence::AbsoluteXWrite => Some((AccessMode::AbX, MemoryAccess::Write)),
        StepSequence::AbsoluteXReadModifyWrite => Some((AccessMode::AbX, MemoryAccess::ReadModifyWrite)),
        StepSequence::AbsoluteYRead => Some((AccessMode::AbY, MemoryAccess::Read)),
        StepSequence::AbsoluteYWrite => Some((AccessMode::AbY, MemoryAccess::Write)),
        StepSequence::AbsoluteYReadModifyWrite => Some((AccessMode::AbY, MemoryAccess::ReadModifyWrite)),
        StepSequence::ZeroPageRead => Some((AccessMode::ZP, MemoryAccess::Read)),
        StepSequence::ZeroPageWrite => Some((AccessMode::ZP, MemoryAccess::Write)),
        StepSequence::ZeroPageReadModifyWrite => Some((AccessMode::ZP, MemoryAccess::ReadModifyWrite)),
        StepSequence::ZeroPageXRead => Some((AccessMode::ZPX, MemoryAccess::Read)),
        StepSequence::ZeroPageXWrite => Some((AccessMode::ZPX, MemoryAccess::Write)),
        StepSequence::ZeroPageXReadModifyWrite => Some((AccessMode::ZPX, MemoryAccess::ReadModifyWrite)),
        StepSequence::ZeroPageYRead => Some((AccessMode::ZPY, MemoryAccess::Read)),
        StepSequence::ZeroPageYWrite => Some((AccessMode::ZPY, MemoryAccess::Write)),
        StepSequence::ZeroPageYReadModifyWrite => Some((AccessMode::ZPY, MemoryAccess::ReadModifyWrite)),
        StepSequence::IndexedIndirectRead => Some((AccessMode::IzX, MemoryAccess::Read)),
        StepSequence::IndexedIndirectWrite => Some((AccessMode::IzX, MemoryAccess::Write)),
        StepSequence::IndexedIndirectReadModifyWrite => Some((AccessMode::IzX, MemoryAccess::ReadModifyWrite)),
        StepSequence::IndirectIndexedRead => Some((AccessMode::IzY, MemoryAccess::Read)),
        StepSequence::IndirectIndexedWrite => Some((AccessMode::IzY, MemoryAccess::Write)),
        StepSequence::IndirectIndexedReadModifyWrite => Some((AccessMode::IzY, MemoryAccess::ReadModifyWrite)),
        _ => None,
    }
}

/// A memory operand's step sequence addresses memory the way the instruction's addressing mode
/// says, and reads, writes, or reads, modifies and writes it as its operation does: LDA absolute
/// runs the absolute read sequence, STA absolute the absolute write sequence.
#[verifier::rlimit(100)]
pub proof fn lemma_steps_follow_mode_and_access(access_mode: AccessMode, op_code: OpCode)
    ensures
        ({
            let steps = spec_steps_for(access_mode, op_code);
            steps is Some && sequence_addressing(steps->Some_0) is Some
                ==> memory_access(op_code) is Some
                    && sequence_addressing(steps->Some_0) == Some((access_mode, memory_access(op_code)->Some_0))
        }),
        ({
            let steps = spec_steps_for(access_mode, op_code);
            memory_access(op_code) is Some && steps is Some
                && access_mode != AccessMode::Imp && access_mode != AccessMode::Imm && access_mode != AccessMode::Rel
                && op_code != OpCode::JMP && op_code != OpCode::JSR
                ==> sequence_addressing(steps->Some_0) is Some
        }),
{
}

/// The operations of the arithmetic and logic column (low bits 01), by the top three bits.
pub open spec fn alu_operation(aaa: int) -> OpCode {
    if aaa == 0 { OpCode::ORA } else if aaa == 1 { OpCode::AND } else if aaa == 2 { OpCode::EOR }
    else if aaa == 3 { OpCode::ADC } else if aaa == 4 { OpCode::STA } else if aaa == 5 { OpCode::LDA }
    else if aaa == 6 { OpCode::CMP } else { OpCode::SBC }
}

/// The addressing modes of the arithmetic and logic column, by bits 2 through 4.
pub open spec fn alu_mode(bbb: int) -> AccessMode {
    if bbb == 0 { AccessMode::IzX } else if bbb == 1 { AccessMode::ZP } else if bbb == 2 { AccessMode::Imm }
    else if bbb == 3 { AccessMode::Abs } else if bbb == 4 { AccessMode::IzY } else if bbb == 5 { AccessMode::ZPX }
    else if bbb == 6 { AccessMode::AbY } else { AccessMode::AbX }
}

/// The operations of the read-modify-write column (low bits 10), by the top three bits.
pub open spec fn rmw_operation(aaa: int) -> OpCode {
    if aaa == 0 { OpCode::ASL } else if aaa == 1 { OpCode::ROL } else if aaa == 2 { OpCode::LSR }
    else if aaa == 3 { OpCode::ROR } else if aaa == 4 { OpCode::STX } else if aaa == 5 { OpCode::LDX }
    else if aaa == 6 { OpCode::DEC } else { OpCode::INC }
}

/// The undocumented operations of the column with low bits 11, which combine the other two
/// columns' operations, by the top three bits.
pub open spec fn combined_operation(aaa: int) -> OpCode {
    if aaa == 0 { OpCode::SLO } else if aaa == 1 { OpCode::RLA } else if aaa == 2 { OpCode::SRE }
    else if aaa == 3 { OpCode::RRA } else if aaa == 4 { OpCode::SAX } else if aaa == 5 { OpCode::LAX }
    else if aaa == 6 { OpCode::DCP } else { OpCode::ISC }
}

/// The branches, by the top three bits (the flag tested and the value branched on).
pub open spec fn branch_operation(aaa: int) -> OpCode {
    if aaa == 0 { OpCode::BPL } else if aaa == 1 { OpCode::BMI } else if aaa == 2 { OpCode::BVC }
    else if aaa == 3 { OpCode::BVS } else if aaa == 4 { OpCode::BCC } else if aaa == 5 { OpCode::BCS }
    else if aaa == 6 { OpCode::BNE } else { OpCode::BEQ }
}

/// The single-byte instructions of the column with low bits 00 at bits 2 through 4 equal to 110.
pub open spec fn flag_operation(aaa: int) -> OpCode {
    if aaa == 0 { OpCode::CLC } else if aaa == 1 { OpCode::SEC } else if aaa == 2 { OpCode::CLI }
    else if aaa == 3 { OpCode::SEI } else if aaa == 4 { OpCode::TYA } else if aaa == 5 { OpCode::CLV }
    else if aaa == 6 { OpCode::CLD } else { OpCode::SED }
}

/// The operations on the X register (top bits 100 and 101) index by Y where the others index
/// by X.
pub open spec fn x_register_mode(aaa: int, mode: AccessMode) -> AccessMode {
    if aaa == 4 || aaa == 5 {
        if mode == AccessMode::ZPX { AccessMode::ZPY } else if mode == AccessMode::AbX { AccessMode::AbY } else { mode }
    } else {
        mode
    }
}

/// The operations on the index registers in the column with low bits 00 (top bits 100 to 111).
pub open spec fn index_operation(aaa: int) -> OpCode {
    if aaa == 4 { OpCode::STY } else if aaa == 5 { OpCode::LDY } else if aaa == 6 { OpCode::CPY } else { OpCode::CPX }
}

/// The stack and index-step instructions of the column with low bits 00 at bits 2 through 4
/// equal to 010.
pub open spec fn stack_operation(aaa: int) -> OpCode {
    if aaa == 0 { OpCode::PHP } else if aaa == 1 { OpCode::PLP } else if aaa == 2 { OpCode::PHA }
    else if aaa == 3 { OpCode::PLA } else if aaa == 4 { OpCode::DEY } else if aaa == 5 { OpCode::TAY }
    else if aaa == 6 { OpCode::INY } else { OpCode::INX }
}

/// The undocumented immediate instructions of the column with low bits 11.
pub open spec fn combined_immediate_operation(aaa: int) -> OpCode {
    if aaa == 0 || aaa == 1 { OpCode::ANC } else if aaa == 2 { OpCode::ALR } else if aaa == 3 { OpCode::ARR }
    else if aaa == 4 { OpCode::XAA } else if aaa == 5 { OpCode::LAX } else if aaa == 6 { OpCode::AXS }
    else { OpCode::SBC }
}

/// The 6502 opcode matrix, read by the top three bits `aaa`, the middle three bits `bbb` and the
/// low two bits `cc` of a code point.
pub open spec fn follows_opcode_matrix(code_point: u8) -> bool {
    let aaa = code_point / 32;
    let bbb = (code_point / 4) % 8;
    let cc = code_point % 4;
    let decoded = spec_decode(code_point);
    &&& cc == 1 ==> decoded == (if code_point == 0x89 {
        (OpCode::NOP, AccessMode::Imm)
    } else {
        (alu_operation(aaa as int), alu_mode(bbb as int))
    })
    &&& cc == 2 && (bbb == 1 || bbb == 3 || bbb == 5 || bbb == 7) && code_point != 0x9E
        ==> decoded == (rmw_operation(aaa as int), x_register_mode(aaa as int, alu_mode(bbb as int)))
    &&& cc == 2 && bbb == 2 && aaa < 4 ==> decoded == (rmw_operation(aaa as int), AccessMode::Imp)
    &&& cc == 2 && (bbb == 4 || (bbb == 0 && aaa < 4)) ==> decoded == (OpCode::JAM, AccessMode::Imp)
    &&& cc == 3 && bbb != 2 && code_point != 0x93 && code_point != 0x9B && code_point != 0x9F && code_point != 0xBB
        ==> decoded == (combined_operation(aaa as int), x_register_mode(aaa as int, alu_mode(bbb as int)))
    &&& cc == 0 && bbb == 4 ==> decoded == (branch_operation(aaa as int), AccessMode::Rel)
    &&& cc == 0 && bbb == 6 ==> decoded == (flag_operation(aaa as int), AccessMode::Imp)
    &&& cc == 0 && bbb == 2 ==> decoded == (stack_operation(aaa as int), AccessMode::Imp)
    &&& cc == 0 && aaa >= 4 && (bbb == 1 || bbb == 3)
        ==> decoded == (index_operation(aaa as int), alu_mode(bbb as int))
    &&& cc == 0 && aaa >= 5 && bbb == 0 ==> decoded == (index_operation(aaa as int), AccessMode::Imm)
    &&& cc == 0 && (aaa == 4 || aaa == 5) && bbb == 5 ==> decoded == (index_operation(aaa as int), AccessMode::ZPX)
    &&& code_point == 0xBC ==> decoded == (OpCode::LDY, AccessMode::AbX)
    &&& code_point == 0x00 ==> decoded == (OpCode::BRK, AccessMode::Imp)
    &&& code_point == 0x20 ==> decoded == (OpCode::JSR, AccessMode::Abs)
    &&& code_point == 0x40 ==> decoded == (OpCode::RTI, AccessMode::Imp)
    &&& code_point == 0x60 ==> decoded == (OpCode::RTS, AccessMode::Imp)
    &&& (code_point == 0x24 || code_point == 0x2C) ==> decoded == (OpCode::BIT, alu_mode(bbb as int))
    &&& code_point == 0x4C ==> decoded == (OpCode::JMP, AccessMode::Abs)
    &&& code_point == 0x6C ==> decoded == (OpCode::JMP, AccessMode::Ind)
    &&& cc == 2 && bbb == 2 && aaa >= 4 ==> decoded == (if aaa == 4 { OpCode::TXA } else if aaa == 5 { OpCode::TAX }
        else if aaa == 6 { OpCode::DEX } else { OpCode::NOP }, AccessMode::Imp)
    &&& code_point == 0x9A ==> decoded == (OpCode::TXS, AccessMode::Imp)
    &&& code_point == 0xBA ==> decoded == (OpCode::TSX, AccessMode::Imp)
    &&& code_point == 0xA2 ==> decoded == (OpCode::LDX, AccessMode::Imm)
    &&& cc == 3 && bbb == 2 ==> decoded == (combined_immediate_operation(aaa as int), AccessMode::Imm)
}

/// Every code point follows the 6502 opcode matrix: in the column with low bits 01 the top three
/// bits choose ORA, AND, EOR, ADC, STA, LDA, CMP or SBC and the middle three bits the addressing
/// mode ((zp,X), zp, #imm, abs, (zp),Y, zp,X, abs,Y, abs,X), so 0xAD is LDA absolute; the
/// read-modify-write, undocumented, branch and flag columns follow their own rows the same way.
#[verifier::rlimit(100)]
pub proof fn lemma_decode_follows_opcode_matrix(code_point: u8)
    ensures
        follows_opcode_matrix(code_point),
{
}

/// The named sequences of CPU steps that instructions are made of.
#[derive(PartialEq, Eq, Clone, Copy, Debug, Structural)]
pub enum StepSequence {
    Brk,
    Rti,
    Rts,
    Pha,
    Php,
    Pla,
    Plp,
    Jsr,
    JmpAbsolute,
    JmpIndirect,
    ImplicitAddressing,
    ImmediateAddressing,
    RelativeAddressing,
    AbsoluteRead,
    AbsoluteXRead,
    AbsoluteYRead,
    ZeroPageRead,
    ZeroPageXRead,
    ZeroPageYRead,
    IndexedIndirectRead,
    IndirectIndexedRead,
    AbsoluteWrite,
    AbsoluteXWrite,
    AbsoluteYWrite,
    ZeroPageWrite,
    ZeroPageXWrite,
    ZeroPageYWrite,
    IndexedIndirectWrite,
    IndirectIndexedWrite,
    AbsoluteReadModifyWrite,
    AbsoluteXReadModifyWrite,
    AbsoluteYReadModifyWrite,
    ZeroPageReadModifyWrite,
    ZeroPageXReadModifyWrite,
    ZeroPageYReadModifyWrite,
    IndexedIndirectReadModifyWrite,
    IndirectIndexedReadModifyWrite,
}

/// A decoded CPU instruction.
#[derive(Clone, Copy, Debug)]
pub struct Instruction {
    code_point: u8,
    op_code: OpCode,
    access_mode: AccessMode,
    steps: StepSequence,
}

impl Instruction {
    pub closed spec fn spec_code_point(self) -> u8 { self.code_point }
    pub closed spec fn spec_op_code(self) -> OpCode { self.op_code }
    pub closed spec fn spec_access_mode(self) -> AccessMode { self.access_mode }
    pub closed spec fn spec_steps(self) -> StepSequence { self.steps }

    pub fn code_point(&self) -> (r: u8)
        ensures
            r == self.spec_code_point(),
    {
        self.code_point
    }

    pub fn op_code(&self) -> (r: OpCode)
        ensures
            r == self.spec_op_code(),
    {
        self.op_code
    }

    pub fn access_mode(&self) -> (r: AccessMode)
        ensures
            r == self.spec_access_mode(),
    {
        self.access_mode
    }

    pub fn steps(&self) -> (r: StepSequence)
        ensures
            r == self.spec_steps(),
    {
        self.steps
    }

    /// The instruction that a code point encodes, according to the table of all code points.
    pub fn from_code_point(code_point: u8) -> (r: Instruction)
        ensures
            r.spec_code_point() == code_point,
            r.spec_op_code() == spec_decode(code_point).0,
            r.spec_access_mode() == spec_decode(code_point).1,
            Some(r.spec_steps()) == spec_steps_for(spec_decode(code_point).1, spec_decode(code_point).0),
    {
        let (op_code, access_mode) = decode(code_point);
        proof {
            lemma_code_point_has_steps(code_point);
        }
        Instruction::from_tuple(code_point, op_code, access_mode)
    }

    fn from_tuple(code_point: u8, op_code: OpCode, access_mode: AccessMode) -> (r: Instruction)
        requires
            spec_steps_for(access_mode, op_code) is Some,
        ensures
            r.spec_code_point() == code_point,
            r.spec_op_code() == op_code,
            r.spec_access_mode() == access_mode,
            Some(r.spec_steps()) == spec_steps_for(access_mode, op_code),
    {
        let steps = match steps_for(access_mode, op_code) {
            Some(steps) => steps,
            None => {
                assert(false);
                StepSequence::ImplicitAddressing
            }
        };
        Instruction { code_point, op_code, access_mode, steps }
    }
}

fn decode(code_point: u8) -> (r: (OpCode, AccessMode))
    ensures
        r == spec_decode(code_point),
{
    match code_point {
        0 => (OpCode::BRK, AccessMode::Imp),
        1 => (OpCode::ORA, AccessMode::IzX),
        2 => (OpCode::JAM, AccessMode::Imp),
        3 => (OpCode::SLO, AccessMode::IzX),
        4 => (OpCode::NOP, AccessMode::ZP),
        5 => (OpCode::ORA, AccessMode::ZP),
        6 => (OpCode::ASL, AccessMode::ZP),
        7 => (OpCode::SLO, AccessMode::ZP),
        8 => (OpCode::PHP, AccessMode::Imp),
        9 => (OpCode::ORA, AccessMode::Imm),
        10 => (OpCode::ASL, AccessMode::Imp),
        11 => (OpCode::ANC, AccessMode::Imm),
        12 => (OpCode::NOP, AccessMode::Abs),
        13 => (OpCode::ORA, AccessMode::Abs),
        14 => (OpCode::ASL, AccessMode::Abs),
        15 => (OpCode::SLO, AccessMode::Abs),
        16 => (OpCode::BPL, AccessMode::Rel),
        17 => (OpCode::ORA, AccessMode::IzY),
        18 => (OpCode::JAM, AccessMode::Imp),
        19 => (OpCode::SLO, AccessMode::IzY),
        20 => (OpCode::NOP, AccessMode::ZPX),
        21 => (OpCode::ORA, AccessMode::ZPX),
        22 => (OpCode::ASL, AccessMode::ZPX),
        23 => (OpCode::SLO, AccessMode::ZPX),
        24 => (OpCode::CLC, AccessMode::Imp),
        25 => (OpCode::ORA, AccessMode::AbY),
        26 => (OpCode::NOP, AccessMode::Imp),
        27 => (OpCode::SLO, AccessMode::AbY),
        28 => (OpCode::NOP, AccessMode::AbX),
        29 => (OpCode::ORA, AccessMode::AbX),
        30 => (OpCode::ASL, AccessMode::AbX),
        31 => (OpCode::SLO, AccessMode::AbX),
        32 => (OpCode::JSR, AccessMode::Abs),
        33 => (OpCode::AND, AccessMode::IzX),
        34 => (OpCode::JAM, AccessMode::Imp),
        35 => (OpCode::RLA, AccessMode::IzX),
        36 => (OpCode::BIT, AccessMode::ZP),
        37 => (OpCode::AND, AccessMode::ZP),
        38 => (OpCode::ROL, AccessMode::ZP),
        39 => (OpCode::RLA, AccessMode::ZP),
        40 => (OpCode::PLP, AccessMode::Imp),
        41 => (OpCode::AND, AccessMode::Imm),
        42 => (OpCode::ROL, AccessMode::Imp),
        43 => (OpCode::ANC, AccessMode::Imm),
        44 => (OpCode::BIT, AccessMode::Abs),
        45 => (OpCode::AND, AccessMode::Abs),
        46 => (OpCode::ROL, AccessMode::Abs),
        47 => (OpCode::RLA, AccessMode::Abs),
        48 => (OpCode::BMI, AccessMode::Rel),
        49 => (OpCode::AND, AccessMode::IzY),
        50 => (OpCode::JAM, AccessMode::Imp),
        51 => (OpCode::RLA, AccessMode::IzY),
        52 => (OpCode::NOP, AccessMode::ZPX),
        53 => (OpCode::AND, AccessMode::ZPX),
        54 => (OpCode::ROL, AccessMode::ZPX),
        55 => (OpCode::RLA, AccessMode::ZPX),
        56 => (OpCode::SEC, AccessMode::Imp),
        57 => (OpCode::AND, AccessMode::AbY),
        58 => (OpCode::NOP, AccessMode::Imp),
        59 => (OpCode::RLA, AccessMode::AbY),
        60 => (OpCode::NOP, AccessMode::AbX),
        61 => (OpCode::AND, AccessMode::AbX),
        62 => (OpCode::ROL, AccessMode::AbX),
        63 => (OpCode::RLA, AccessMode::AbX),
        64 => (OpCode::RTI, AccessMode::Imp),
        65 => (OpCode::EOR, AccessMode::IzX),
        66 => (OpCode::JAM, AccessMode::Imp),
        67 => (OpCode::SRE, AccessMode::IzX),
        68 => (OpCode::NOP, AccessMode::ZP),
        69 => (OpCode::EOR, AccessMode::ZP),
        70 => (OpCode::LSR, AccessMode::ZP),
        71 => (OpCode::SRE, AccessMode::ZP),
        72 => (OpCode::PHA, AccessMode::Imp),
        73 => (OpCode::EOR, AccessMode::Imm),
        74 => (OpCode::LSR, AccessMode::Imp),
        75 => (OpCode::ALR, AccessMode::Imm),
        76 => (OpCode::JMP, AccessMode::Abs),
        77 => (OpCode::EOR, AccessMode::Abs),
        78 => (OpCode::LSR, AccessMode::Abs),
        79 => (OpCode::SRE, AccessMode::Abs),
        80 => (OpCode::BVC, AccessMode::Rel),
        81 => (OpCode::EOR, AccessMode::IzY),
        82 => (OpCode::JAM, AccessMode::Imp),
        83 => (OpCode::SRE, AccessMode::IzY),
        84 => (OpCode::NOP, AccessMode::ZPX),
        85 => (OpCode::EOR, AccessMode::ZPX),
        86 => (OpCode::LSR, AccessMode::ZPX),
        87 => (OpCode::SRE, AccessMode::ZPX),
        88 => (OpCode::CLI, AccessMode::Imp),
        89 => (OpCode::EOR, AccessMode::AbY),
        90 => (OpCode::NOP, AccessMode::Imp),
        91 => (OpCode::SRE, AccessMode::AbY),
        92 => (OpCode::NOP, AccessMode::AbX),
        93 => (OpCode::EOR, AccessMode::AbX),
        94 => (OpCode::LSR, AccessMode::AbX),
        95 => (OpCode::SRE, AccessMode::AbX),
        96 => (OpCode::RTS, AccessMode::Imp),
        97 => (OpCode::ADC, AccessMode::IzX),
        98 => (OpCode::JAM, AccessMode::Imp),
        99 => (OpCode::RRA, AccessMode::IzX),
        100 => (OpCode::NOP, AccessMode::ZP),
        101 => (OpCode::ADC, AccessMode::ZP),
        102 => (OpCode::ROR, AccessMode::ZP),
        103 => (OpCode::RRA, AccessMode::ZP),
        104 => (OpCode::PLA, AccessMode::Imp),
        105 => (OpCode::ADC, AccessMode::Imm),
        106 => (OpCode::ROR, AccessMode::Imp),
        107 => (OpCode::ARR, AccessMode::Imm),
        108 => (OpCode::JMP, AccessMode::Ind),
        109 => (OpCode::ADC, AccessMode::Abs),
        110 => (OpCode::ROR, AccessMode::Abs),
        111 => (OpCode::RRA, AccessMode::Abs),
        112 => (OpCode::BVS, AccessMode::Rel),
        113 => (OpCode::ADC, AccessMode::IzY),
        114 => (OpCode::JAM, AccessMode::Imp),
        115 => (OpCode::RRA, AccessMode::IzY),
        116 => (OpCode::NOP, AccessMode::ZPX),
        117 => (OpCode::ADC, AccessMode::ZPX),
        118 => (OpCode::ROR, AccessMode::ZPX),
        119 => (OpCode::RRA, AccessMode::ZPX),
        120 => (OpCode::SEI, AccessMode::Imp),
        121 => (OpCode::ADC, AccessMode::AbY),
        122 => (OpCode::NOP, AccessMode::Imp),
        123 => (OpCode::RRA, AccessMode::AbY),
        124 => (OpCode::NOP, AccessMode::AbX),
        125 => (OpCode::ADC, AccessMode::AbX),
        126 => (OpCode::ROR, AccessMode::AbX),
        127 => (OpCode::RRA, AccessMode::AbX),
        128 => (OpCode::NOP, AccessMode::Imm),
        129 => (OpCode::STA, AccessMode::IzX),
        130 => (OpCode::NOP, AccessMode::Imm),
        131 => (OpCode::SAX, AccessMode::IzX),
        132 => (OpCode::STY, AccessMode::ZP),
        133 => (OpCode::STA, AccessMode::ZP),
        134 => (OpCode::STX, AccessMode::ZP),
        135 => (OpCode::SAX, AccessMode::ZP),
        136 => (OpCode::DEY, AccessMode::Imp),
        137 => (OpCode::NOP, AccessMode::Imm),
        138 => (OpCode::TXA, AccessMode::Imp),
        139 => (OpCode::XAA, AccessMode::Imm),
        140 => (OpCode::STY, AccessMode::Abs),
        141 => (OpCode::STA, AccessMode::Abs),
        142 => (OpCode::STX, AccessMode::Abs),
        143 => (OpCode::SAX, AccessMode::Abs),
        144 => (OpCode::BCC, AccessMode::Rel),
        145 => (OpCode::STA, AccessMode::IzY),
        146 => (OpCode::JAM, AccessMode::Imp),
        147 => (OpCode::AHX, AccessMode::IzY),
        148 => (OpCode::STY, AccessMode::ZPX),
        149 => (OpCode::STA, AccessMode::ZPX),
        150 => (OpCode::STX, AccessMode::ZPY),
        151 => (OpCode::SAX, AccessMode::ZPY),
        152 => (OpCode::TYA, AccessMode::Imp),
        153 => (OpCode::STA, AccessMode::AbY),
        154 => (OpCode::TXS, AccessMode::Imp),
        155 => (OpCode::TAS, AccessMode::AbY),
        156 => (OpCode::SHY, AccessMode::AbX),
        157 => (OpCode::STA, AccessMode::AbX),
        158 => (OpCode::SHX, AccessMode::AbY),
        159 => (OpCode::AHX, AccessMode::AbY),
        160 => (OpCode::LDY, AccessMode::Imm),
        161 => (OpCode::LDA, AccessMode::IzX),
        162 => (OpCode::LDX, AccessMode::Imm),
        163 => (OpCode::LAX, AccessMode::IzX),
        164 => (OpCode::LDY, AccessMode::ZP),
        165 => (OpCode::LDA, AccessMode::ZP),
        166 => (OpCode::LDX, AccessMode::ZP),
        167 => (OpCode::LAX, AccessMode::ZP),
        168 => (OpCode::TAY, AccessMode::Imp),
        169 => (OpCode::LDA, AccessMode::Imm),
        170 => (OpCode::TAX, AccessMode::Imp),
        171 => (OpCode::LAX, AccessMode::Imm),
        172 => (OpCode::LDY, AccessMode::Abs),
        173 => (OpCode::LDA, AccessMode::Abs),
        174 => (OpCode::LDX, AccessMode::Abs),
        175 => (OpCode::LAX, AccessMode::Abs),
        176 => (OpCode::BCS, AccessMode::Rel),
        177 => (OpCode::LDA, AccessMode::IzY),
        178 => (OpCode::JAM, AccessMode::Imp),
        179 => (OpCode::LAX, AccessMode::IzY),
        180 => (OpCode::LDY, AccessMode::ZPX),
        181 => (OpCode::LDA, AccessMode::ZPX),
        182 => (OpCode::LDX, AccessMode::ZPY),
        183 => (OpCode::LAX, AccessMode::ZPY),
        184 => (OpCode::CLV, AccessMode::Imp),
        185 => (OpCode::LDA, AccessMode::AbY),
        186 => (OpCode::TSX, AccessMode::Imp),
        187 => (OpCode::LAS, AccessMode::AbY),
        188 => (OpCode::LDY, AccessMode::AbX),
        189 => (OpCode::LDA, AccessMode::AbX),
        190 => (OpCode::LDX, AccessMode::AbY),
        191 => (OpCode::LAX, AccessMode::AbY),
        192 => (OpCode::CPY, AccessMode::Imm),
        193 => (OpCode::CMP, AccessMode::IzX),
        194 => (OpCode::NOP, AccessMode::Imm),
        195 => (OpCode::DCP, AccessMode::IzX),
        196 => (OpCode::CPY, AccessMode::ZP),
        197 => (OpCode::CMP, AccessMode::ZP),
        198 => (OpCode::DEC, AccessMode::ZP),
        199 => (OpCode::DCP, AccessMode::ZP),
        200 => (OpCode::INY, AccessMode::Imp),
        201 => (OpCode::CMP, AccessMode::Imm),
        202 => (OpCode::DEX, AccessMode::Imp),
        203 => (OpCode::AXS, AccessMode::Imm),
        204 => (OpCode::CPY, AccessMode::Abs),
        205 => (OpCode::CMP, AccessMode::Abs),
        206 => (OpCode::DEC, AccessMode::Abs),
        207 => (OpCode::DCP, AccessMode::Abs),
        208 => (OpCode::BNE, AccessMode::Rel),
        209 => (OpCode::CMP, AccessMode::IzY),
        210 => (OpCode::JAM, AccessMode::Imp),
        211 => (OpCode::DCP, AccessMode::IzY),
        212 => (OpCode::NOP, AccessMode::ZPX),
        213 => (OpCode::CMP, AccessMode::ZPX),
        214 => (OpCode::DEC, AccessMode::ZPX),
        215 => (OpCode::DCP, AccessMode::ZPX),
        216 => (OpCode::CLD, AccessMode::Imp),
        217 => (OpCode::CMP, AccessMode::AbY),
        218 => (OpCode::NOP, AccessMode::Imp),
        219 => (OpCode::DCP, AccessMode::AbY),
        220 => (OpCode::NOP, AccessMode::AbX),
        221 => (OpCode::CMP, AccessMode::AbX),
        222 => (OpCode::DEC, AccessMode::AbX),
        223 => (OpCode::DCP, AccessMode::AbX),
        224 => (OpCode::CPX, AccessMode::Imm),
        225 => (OpCode::SBC, AccessMode::IzX),
        226 => (OpCode::NOP, AccessMode::Imm),
        227 => (OpCode::ISC, AccessMode::IzX),
        228 => (OpCode::CPX, AccessMode::ZP),
        229 => (OpCode::SBC, AccessMode::ZP),
        230 => (OpCode::INC, AccessMode::ZP),
        231 => (OpCode::ISC, AccessMode::ZP),
        232 => (OpCode::INX, AccessMode::Imp),
        233 => (OpCode::SBC, AccessMode::Imm),
        234 => (OpCode::NOP, AccessMode::Imp),
        235 => (OpCode::SBC, AccessMode::Imm),
        236 => (OpCode::CPX, AccessMode::Abs),
        237 => (OpCode::SBC, AccessMode::Abs),
        238 => (OpCode::INC, AccessMode::Abs),
        239 => (OpCode::ISC, AccessMode::Abs),
        240 => (OpCode::BEQ, AccessMode::Rel),
        241 => (OpCode::SBC, AccessMode::IzY),
        242 => (OpCode::JAM, AccessMode::Imp),
        243 => (OpCode::ISC, AccessMode::IzY),
        244 => (OpCode::NOP, AccessMode::ZPX),
        245 => (OpCode::SBC, AccessMode::ZPX),
        246 => (OpCode::INC, AccessMode::ZPX),
        247 => (OpCode::ISC, AccessMode::ZPX),
        248 => (OpCode::SED, AccessMode::Imp),
        249 => (OpCode::SBC, AccessMode::AbY),
        250 => (OpCode::NOP, AccessMode::Imp),
        251 => (OpCode::ISC, AccessMode::AbY),
        252 => (OpCode::NOP, AccessMode::AbX),
        253 => (OpCode::SBC, AccessMode::AbX),
        254 => (OpCode::INC, AccessMode::AbX),
        255 => (OpCode::ISC, AccessMode::AbX),
    }
}

fn steps_for(access_mode: AccessMode, op_code: OpCode) -> (r: Option<StepSequence>)
    ensures
        r == spec_steps_for(access_mode, op_code),
{
    match (access_mode, op_code) {
            (AccessMode::Imp, OpCode::BRK) => Some(StepSequence::Brk),
            (AccessMode::Imp, OpCode::RTI) => Some(StepSequence::Rti),
            (AccessMode::Imp, OpCode::RTS) => Some(StepSequence::Rts),
            (AccessMode::Imp, OpCode::PHA) => Some(StepSequence::Pha),
            (AccessMode::Imp, OpCode::PHP) => Some(StepSequence::Php),
            (AccessMode::Imp, OpCode::PLA) => Some(StepSequence::Pla),
            (AccessMode::Imp, OpCode::PLP) => Some(StepSequence::Plp),
            (AccessMode::Abs, OpCode::JSR) => Some(StepSequence::Jsr),
            (AccessMode::Abs, OpCode::JMP) => Some(StepSequence::JmpAbsolute),
            (AccessMode::Ind, OpCode::JMP) => Some(StepSequence::JmpIndirect),
            (AccessMode::Imp, _) => Some(StepSequence::ImplicitAddressing),
            (AccessMode::Imm, _) => Some(StepSequence::ImmediateAddressing),
            (AccessMode::Rel, _) => Some(StepSequence::RelativeAddressing),
            (AccessMode::Abs, OpCode::LDA | OpCode::LDX | OpCode::LDY | OpCode::EOR | OpCode::AND | OpCode::ORA | OpCode::ADC | OpCode::SBC | OpCode::CMP | OpCode::CPX | OpCode::CPY | OpCode::BIT | OpCode::LAX | OpCode::NOP) => Some(StepSequence::AbsoluteRead),
            (AccessMode::AbX, OpCode::LDA | OpCode::LDX | OpCode::LDY | OpCode::EOR | OpCode::AND | OpCode::ORA | OpCode::ADC | OpCode::SBC | OpCode::CMP | OpCode::LAX | OpCode::NOP) => Some(StepSequence::AbsoluteXRead),
            (AccessMode::AbY, OpCode::LDA | OpCode::LDX | OpCode::LDY | OpCode::EOR | OpCode::AND | OpCode::ORA | OpCode::ADC | OpCode::SBC | OpCode::CMP | OpCode::LAX | OpCode::NOP | OpCode::LAS) => Some(StepSequence::AbsoluteYRead),
            (AccessMode::ZP, OpCode::LDA | OpCode::LDX | OpCode::LDY | OpCode::EOR | OpCode::AND | OpCode::ORA | OpCode::ADC | OpCode::SBC | OpCode::CMP | OpCode::CPX | OpCode::CPY | OpCode::BIT | OpCode::LAX | OpCode::NOP) => Some(StepSequence::ZeroPageRead),
            (AccessMode::ZPX, OpCode::LDA | OpCode::LDX | OpCode::LDY | OpCode::EOR | OpCode::AND | OpCode::ORA | OpCode::ADC | OpCode::SBC | OpCode::CMP | OpCode::LAX | OpCode::NOP) => Some(StepSequence::ZeroPageXRead),
            (AccessMode::ZPY, OpCode::LDA | OpCode::LDX | OpCode::LDY | OpCode::EOR | OpCode::AND | OpCode::ORA | OpCode::ADC | OpCode::SBC | OpCode::CMP | OpCode::LAX | OpCode::NOP) => Some(StepSequence::ZeroPageYRead),
            (AccessMode::IzX, OpCode::LDA | OpCode::EOR | OpCode::AND | OpCode::ORA | OpCode::ADC | OpCode::SBC | OpCode::CMP | OpCode::LAX) => Some(StepSequence::IndexedIndirectRead),
            (AccessMode::IzY, OpCode::LDA | OpCode::EOR | OpCode::AND | OpCode::ORA | OpCode::ADC | OpCode::SBC | OpCode::CMP | OpCode::LAX) => Some(StepSequence::IndirectIndexedRead),
            (AccessMode::Abs, OpCode::STA | OpCode::STX | OpCode::STY | OpCode::SAX) => Some(StepSequence::AbsoluteWrite),
            (AccessMode::AbX, OpCode::STA | OpCode::STX | OpCode::STY | OpCode::SHY) => Some(StepSequence::AbsoluteXWrite),
            (AccessMode::AbY, OpCode::STA | OpCode::STX | OpCode::STY | OpCode::SHX | OpCode::AHX | OpCode::TAS) => Some(StepSequence::AbsoluteYWrite),
            (AccessMode::ZP, OpCode::STA | OpCode::STX | OpCode::STY | OpCode::SAX) => Some(StepSequence::ZeroPageWrite),
            (AccessMode::ZPX, OpCode::STA | OpCode::STX | OpCode::STY | OpCode::SAX) => Some(StepSequence::ZeroPageXWrite),
            (AccessMode::ZPY, OpCode::STA | OpCode::STX | OpCode::STY | OpCode::SAX) => Some(StepSequence::ZeroPageYWrite),
            (AccessMode::IzX, OpCode::STA | OpCode::SAX) => Some(StepSequence::IndexedIndirectWrite),
            (AccessMode::IzY, OpCode::STA | OpCode::AHX) => Some(StepSequence::IndirectIndexedWrite),
            (AccessMode::Abs, OpCode::ASL | OpCode::LSR | OpCode::ROL | OpCode::ROR | OpCode::INC | OpCode::DEC | OpCode::SLO | OpCode::SRE | OpCode::RLA | OpCode::RRA | OpCode::ISC | OpCode::DCP) => Some(StepSequence::AbsoluteReadModifyWrite),
            (AccessMode::AbX, OpCode::ASL | OpCode::LSR | OpCode::ROL | OpCode::ROR | OpCode::INC | OpCode::DEC | OpCode::SLO | OpCode::SRE | OpCode::RLA | OpCode::RRA | OpCode::ISC | OpCode::DCP) => Some(StepSequence::AbsoluteXReadModifyWrite),
            (AccessMode::AbY, OpCode::ASL | OpCode::LSR | OpCode::ROL | OpCode::ROR | OpCode::INC | OpCode::DEC | OpCode::SLO | OpCode::SRE | OpCode::RLA | OpCode::RRA | OpCode::ISC | OpCode::DCP) => Some(StepSequence::AbsoluteYReadModifyWrite),
            (AccessMode::ZP, OpCode::ASL | OpCode::LSR | OpCode::ROL | OpCode::ROR | OpCode::INC | OpCode::DEC | OpCode::SLO | OpCode::SRE | OpCode::RLA | OpCode::RRA | OpCode::ISC | OpCode::DCP) => Some(StepSequence::ZeroPageReadModifyWrite),
            (AccessMode::ZPX, OpCode::ASL | OpCode::LSR | OpCode::ROL | OpCode::ROR | OpCode::INC | OpCode::DEC | OpCode::SLO | OpCode::SRE | OpCode::RLA | OpCode::RRA | OpCode::ISC | OpCode::DCP) => Some(StepSequence::ZeroPageXReadModifyWrite),
            (AccessMode::ZPY, OpCode::ASL | OpCode::LSR | OpCode::ROL | OpCode::ROR | OpCode::INC | OpCode::DEC | OpCode::SLO | OpCode::SRE | OpCode::RLA | OpCode::RRA | OpCode::ISC | OpCode::DCP) => Some(StepSequence::ZeroPageYReadModifyWrite),
            (AccessMode::IzX, OpCode::SLO | OpCode::SRE | OpCode::RLA | OpCode::RRA | OpCode::ISC | OpCode::DCP) => Some(StepSequence::IndexedIndirectReadModifyWrite),
            (AccessMode::IzY, OpCode::SLO | OpCode::SRE | OpCode::RLA | OpCode::RRA | OpCode::ISC | OpCode::DCP) => Some(StepSequence::IndirectIndexedReadModifyWrite),
            _ => None,
    }
}

/// The operation of an instruction.
#[derive(PartialEq, Eq, Clone, Copy, Debug, Structural)]
pub enum OpCode {
    ORA,
    AND,
    EOR,
    ADC,
    SBC,
    CMP,
    CPX,
    CPY,
    DEC,
    DEX,
    DEY,
    INC,
    INX,
    INY,
    ASL,
    ROL,
    LSR,
    ROR,
    LDA,
    STA,
    LDX,
    STX,
    LDY,
    STY,
    TAX,
    TXA,
    TAY,
    TYA,
    TSX,
    TXS,
    PLA,
    PHA,
    PLP,
    PHP,
    BPL,
    BMI,
    BVC,
    BVS,
    BCC,
    BCS,
    BNE,
    BEQ,
    BRK,
    RTI,
    JSR,
    RTS,
    JMP,
    BIT,
    CLC,
    SEC,
    CLD,
    SED,
    CLI,
    SEI,
    CLV,
    NOP,
    SLO,
    RLA,
    SRE,
    RRA,
    SAX,
    LAX,
    DCP,
    ISC,
    ANC,
    ALR,
    ARR,
    XAA,
    AXS,
    AHX,
    SHY,
    SHX,
    TAS,
    LAS,
    JAM,
}

/// How an instruction addresses its operand.
#[derive(PartialEq, Eq, Clone, Copy, Debug, Structural)]
pub enum AccessMode {
    Imp,
    Imm,
    ZP,
    ZPX,
    ZPY,
    Abs,
    AbX,
    AbY,
    Rel,
    Ind,
    IzX,
    IzY,
}

impl AccessMode {
    pub open spec fn spec_instruction_length(self) -> u8 {
        match self {
            AccessMode::Imp => 1,
            AccessMode::Imm | AccessMode::ZP | AccessMode::ZPX | AccessMode::ZPY | AccessMode::Rel
                | AccessMode::IzX | AccessMode::IzY => 2,
            AccessMode::Abs | AccessMode::AbX | AccessMode::AbY | AccessMode::Ind => 3,
        }
    }

    /// The number of bytes of an instruction in this mode: the op code and then its operand.
    pub fn instruction_length(self) -> (r: u8)
        ensures
            r == self.spec_instruction_length(),
            1 <= r <= 3,
    {
        match self {
            AccessMode::Imp => 1,
            AccessMode::Imm | AccessMode::ZP | AccessMode::ZPX | AccessMode::ZPY | AccessMode::Rel
                | AccessMode::IzX | AccessMode::IzY => 2,
            AccessMode::Abs | AccessMode::AbX | AccessMode::AbY | AccessMode::Ind => 3,
        }
    }
}

} // verus!
