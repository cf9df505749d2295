//! The machine: the CPU, the cartridge with the bus behind it, and the clock
//! that runs them one cycle at a time.
use vstd::prelude::*;
use crate::apu::APU;
use crate::bus::{Bus, value_or_zero};
use crate::bus::bus_interceptor::BusInterceptor;
use crate::cartridge::{Cartridge, CartridgeBehavior, spec_rom_loadable};
use crate::cartridge::no_mbc::NoMBCCPUBusInterceptor;
use crate::cpu::CPU;
use crate::cpu::disasm::{ByteSource, ReadError, decode, is_known_opcode, operand_count, read_instruction, spec_advance_n, spec_can_read_n, spec_decode, spec_instruction_readable, spec_instruction_reads, spec_operand_count, spec_read_exact, spec_read_instruction, spec_reads_made};
use crate::cpu::instructions::{Execute, Instruction, InstructionBehavior, lemma_duration_whole_machine_cycles, spec_executable, spec_execute};
use crate::cpu::instructions::arithmetic::{DECInstruction, INCInstruction};
use crate::cpu::instructions::control::{CALLInstruction, NOPInstruction, RETInstruction};
use crate::cpu::instructions::load::{LDHInstruction, LDInstruction};
use crate::cpu::instructions::logic::{ORInstruction, XORInstruction};
use crate::cpu::instructions::test::CPInstruction;
use crate::ppu::{PPUMode, lemma_tick_keeps_wf, lemma_ticked_keeps_wf};
use crate::ppu::registers::{LCDStatusRegister, lemma_status_write_keeps_mode};
use crate::cpu::cpu_bus::CPUBus;
use crate::cpu::registers::{BCRegister, CPUFlags, CPURegisters, DERegister, HLRegister};
use crate::ppu::PPU;
use crate::text::{hex2, hex4, push_hex2, push_hex4};

verus! {

/// The registers and the four bytes at PC, as the trace prints them.
pub struct TraceState {
    pub a: u8,
    pub f: CPUFlags,
    pub bc: BCRegister,
    pub de: DERegister,
    pub hl: HLRegister,
    pub sp: u16,
    pub pc: u16,
    pub pcmem: [u8; 4],
}

impl TraceState {
    /// The trace line.
    pub open spec fn spec_text(&self) -> Seq<char> {
        "A: "@ + hex2(self.a) + " F: "@ + hex2(self.f@) + ", BC: "@ + hex4(self.bc@) + " DE: "@ + hex4(self.de@)
            + " HL: "@ + hex4(self.hl@) + " SP: "@ + hex4(self.sp) + " PC: "@ + hex4(self.pc) + " PCMEM: "@
            + hex2(self.pcmem@[0]) + ","@ + hex2(self.pcmem@[1]) + ","@ + hex2(self.pcmem@[2]) + ","@
            + hex2(self.pcmem@[3])
    }

    pub fn to_string(&self) -> (s: String)
        ensures
            s@ == self.spec_text(),
    {
        let mut s = String::from_str("A: ");
        push_hex2(&mut s, self.a);
        s.append(" F: ");
        push_hex2(&mut s, self.f.into_bits());
        s.append(", BC: ");
        push_hex4(&mut s, self.bc.into_bits());
        s.append(" DE: ");
        push_hex4(&mut s, self.de.into_bits());
        s.append(" HL: ");
        push_hex4(&mut s, self.hl.into_bits());
        s.append(" SP: ");
        push_hex4(&mut s, self.sp);
        s.append(" PC: ");
        push_hex4(&mut s, self.pc);
        s.append(" PCMEM: ");
        push_hex2(&mut s, self.pcmem[0]);
        s.append(",");
        push_hex2(&mut s, self.pcmem[1]);
        s.append(",");
        push_hex2(&mut s, self.pcmem[2]);
        s.append(",");
        push_hex2(&mut s, self.pcmem[3]);
        s
    }
}

/// The machine: the CPU, the cartridge (which holds the bus and, behind it,
/// the APU and the PPU), and the cycles left before the CPU fetches again.
pub struct Machine {
    pub cpu: CPU,
    pub cartridge: Cartridge,
    pub cpu_wait_cycles: usize,
}

impl Machine {
    /// The bus the CPU sees.
    pub open spec fn spec_bus(&self) -> NoMBCCPUBusInterceptor {
        self.cartridge.spec_cpu_bus()
    }

    /// The PPU behind the bus.
    pub open spec fn spec_ppu(&self) -> PPU {
        self.spec_bus().bus.ppu
    }

    /// The machine's invariant: the PPU's timing is one it can reach.
    pub open spec fn wf(&self) -> bool {
        self.spec_ppu().wf()
    }

    /// The byte a side-effect-free read at `addr` yields.
    pub open spec fn spec_peek(&self, addr: u16) -> u8 {
        value_or_zero(self.spec_bus().spec_read(addr))
    }

    /// A machine running the ROM from power-on.
    pub fn from_rom(rom: Vec<u8>) -> (m: Machine)
        requires
            spec_rom_loadable(rom@),
        ensures
            m.cpu.spec_power_on(),
            m.cpu_wait_cycles == 0,
            m.spec_bus().rom@ == rom@,
            m.spec_bus().bus.spec_fresh(m.spec_bus().bus.apu, m.spec_ppu()),
            m.spec_bus().bus.apu.spec_power_on(),
            m.spec_ppu().spec_power_on(),
            m.wf(),
    {
        let apu = APU::new();
        let ppu = PPU::new();
        let cpu = CPU::new();
        Machine { cpu, cartridge: Cartridge::from_rom(rom, apu, ppu), cpu_wait_cycles: 0 }
    }

    /// Whether the trace can be taken: PC + 3 does not overflow and the bus
    /// serves reads at PC to PC + 3.
    pub open spec fn spec_trace_readable(&self) -> bool {
        let pc = self.cpu.registers.pc;
        &&& pc <= 0xFFFC
        &&& NoMBCCPUBusInterceptor::spec_accepts_read(pc)
        &&& NoMBCCPUBusInterceptor::spec_accepts_read((pc + 1) as u16)
        &&& NoMBCCPUBusInterceptor::spec_accepts_read((pc + 2) as u16)
        &&& NoMBCCPUBusInterceptor::spec_accepts_read((pc + 3) as u16)
    }

    /// Whether `t` is this machine's trace: its registers, and the bytes at
    /// PC to PC + 3 read without side effects.
    pub open spec fn spec_is_trace(&self, t: &TraceState) -> bool {
        let regs = self.cpu.registers;
        &&& t.a == regs.af.spec_a()
        &&& t.f == regs.af.spec_f()
        &&& t.bc == regs.bc
        &&& t.de == regs.de
        &&& t.hl == regs.hl
        &&& t.sp == regs.sp
        &&& t.pc == regs.pc
        &&& t.pcmem@ == seq![
            self.spec_peek(regs.pc),
            self.spec_peek((regs.pc + 1) as u16),
            self.spec_peek((regs.pc + 2) as u16),
            self.spec_peek((regs.pc + 3) as u16),
        ]
    }

    /// The registers and the four bytes at PC.
    pub fn trace_state(&self) -> (t: TraceState)
        requires
            self.spec_trace_readable(),
        ensures
            self.spec_is_trace(&t),
    {
        let bus = self.cartridge.cpu_bus();
        let pc = self.cpu.registers.pc;
        let pcmem = [
            bus.read_readonly(pc),
            bus.read_readonly(pc + 1),
            bus.read_readonly(pc + 2),
            bus.read_readonly(pc + 3),
        ];
        let t = TraceState {
            a: self.cpu.registers.af.a(),
            f: self.cpu.registers.af.f(),
            bc: self.cpu.registers.bc,
            de: self.cpu.registers.de,
            hl: self.cpu.registers.hl,
            sp: self.cpu.registers.sp,
            pc,
            pcmem,
        };
        assert(t.pcmem@ =~= seq![pcmem[0], pcmem[1], pcmem[2], pcmem[3]]);
        t
    }

    /// The instruction at PC and the machine once it is fetched, PC past it.
    pub open spec fn spec_fetch(&self) -> (Instruction, Machine) {
        (
            match spec_read_instruction(*self) {
                Ok(i) => i,
                Err(_) => Instruction::NOPInstruction(NOPInstruction::Empty),
            },
            spec_advance_n(*self, spec_instruction_reads(*self)),
        )
    }

    /// The machine with PC set to `pc`.
    pub open spec fn spec_with_pc(&self, pc: u16) -> Machine {
        Machine {
            cpu: CPU { registers: CPURegisters { pc, ..self.cpu.registers }, ..self.cpu },
            cartridge: self.cartridge,
            cpu_wait_cycles: self.cpu_wait_cycles,
        }
    }

    /// Whether a tick is supported from this state (see `spec_tick_ok`).
    pub fn can_tick(&self) -> (r: bool)
        ensures
            r == self.spec_tick_ok(),
    {
        let bus = self.cartridge.cpu_bus();
        if !bus.bus.ppu.is_wf() {
            return false;
        }
        if self.cpu_wait_cycles != 0 {
            return true;
        }
        let pc = self.cpu.registers.pc;
        proof {
            reveal_with_fuel(spec_can_read_n, 3);
            if pc < 0xFFFF {
                lemma_advance_is_pc_step(*self);
            }
        }
        if !(pc < 0xFFFF && NoMBCCPUBusInterceptor::accepts_read(pc)) {
            return false;
        }
        let opcode = bus.read_readonly(pc);
        if !is_known_opcode(opcode) {
            return false;
        }
        let count = operand_count(opcode);
        proof {
            if pc + 1 < 0xFFFF {
                lemma_advance_is_pc_step(self.spec_with_pc((pc + 1) as u16));
            }
        }
        let mut lo: u8 = 0;
        let mut hi: u8 = 0;
        if count >= 1 {
            if !(pc + 1 < 0xFFFF && NoMBCCPUBusInterceptor::accepts_read(pc + 1)) {
                return false;
            }
            lo = bus.read_readonly(pc + 1);
        }
        if count == 2 {
            if !(pc + 2 < 0xFFFF && NoMBCCPUBusInterceptor::accepts_read(pc + 2)) {
                return false;
            }
            hi = bus.read_readonly(pc + 2);
        }
        proof {
            lemma_fetch(*self);
        }
        let instruction = decode(opcode, lo, hi);
        let next_pc = pc + 1 + count as u16;
        if !(next_pc <= 0xFFFC && NoMBCCPUBusInterceptor::accepts_read(next_pc) && NoMBCCPUBusInterceptor::accepts_read(
            next_pc + 1,
        ) && NoMBCCPUBusInterceptor::accepts_read(next_pc + 2) && NoMBCCPUBusInterceptor::accepts_read(next_pc + 3)) {
            return false;
        }
        let cpu1 = CPU { registers: CPURegisters { pc: next_pc, ..self.cpu.registers }, ..self.cpu };
        executable_on(instruction, &cpu1, bus) && instruction.has_duration()
    }

    /// Whether a tick is supported from this state: the machine is well
    /// formed, and where the CPU is due to fetch, the instruction at PC can be
    /// read, the trace taken after it, and the instruction executed, and it
    /// has a known duration.
    pub open spec fn spec_tick_ok(&self) -> bool {
        &&& self.wf()
        &&& self.cpu_wait_cycles == 0 ==> {
            let (i, m1) = self.spec_fetch();
            &&& spec_instruction_readable(*self)
            &&& m1.spec_trace_readable()
            &&& spec_executable(i, m1.cpu, m1.spec_bus())
            &&& i.spec_has_duration()
        }
    }

    /// One clock cycle. Where the CPU is due, it fetches the instruction at
    /// PC, takes the trace, executes the instruction and waits out the rest
    /// of its duration; otherwise it waits one cycle. The PPU then ticks. The
    /// instruction and the trace are returned when one was executed.
    pub fn tick(&mut self) -> (r: Option<(Instruction, TraceState)>)
        requires
            old(self).spec_tick_ok(),
        ensures
            final(self).wf(),
            old(self).cpu_wait_cycles == 0 ==> {
                let (i, m1) = old(self).spec_fetch();
                let (cpu2, bus2) = spec_execute(i, m1.cpu, m1.spec_bus());
                &&& r matches Some((i2, t)) && i2 == i && m1.spec_is_trace(&t)
                &&& final(self).cpu == cpu2
                &&& final(self).cpu_wait_cycles == i.spec_duration() - 1
                &&& final(self).spec_bus() == with_ppu(bus2, final(self).spec_ppu())
                &&& final(self).spec_ppu().spec_ticked_from(&bus2.bus.ppu)
            },
            old(self).cpu_wait_cycles != 0 ==> {
                &&& r is None
                &&& final(self).cpu == old(self).cpu
                &&& final(self).cpu_wait_cycles == old(self).cpu_wait_cycles - 1
                &&& final(self).spec_bus() == with_ppu(old(self).spec_bus(), final(self).spec_ppu())
                &&& final(self).spec_ppu().spec_ticked_from(&old(self).spec_ppu())
            },
    {
        let ghost m0 = *self;
        let mut result = None;
        if self.cpu_wait_cycles == 0 {
            proof {
                lemma_machine_reads(m0);
            }
            let instruction = match read_instruction(self) {
                Ok(i) => i,
                Err(_) => {
                    return vstd::pervasive::unreached();
                },
            };
            let ghost m1 = *self;
            proof {
                lemma_advance_keeps_bus(m0, spec_instruction_reads(m0));
            }
            let trace = self.trace_state();
            instruction.execute(&mut self.cpu, self.cartridge.cpu_bus_mut());
            proof {
                lemma_execute_keeps_ppu_timing(instruction, m1.cpu, m1.spec_bus());
                lemma_tick_keeps_wf(m0.spec_ppu());
                lemma_duration_whole_machine_cycles(instruction);
            }
            self.cpu_wait_cycles = instruction.duration() - 1;
            result = Some((instruction, trace));
        } else {
            proof {
                lemma_tick_keeps_wf(m0.spec_ppu());
            }
            self.cpu_wait_cycles = self.cpu_wait_cycles - 1;
        }
        let ghost before = self.spec_ppu();
        proof {
            assert(ppu_timing(before) == ppu_timing(m0.spec_ppu()));
        }
        let bus = self.cartridge.cpu_bus_mut();
        bus.bus.ppu.tick();
        proof {
            lemma_ticked_keeps_wf(before, self.spec_ppu());
        }
        result
    }
}

/// The machine's bus with the PPU replaced.
pub open spec fn with_ppu(bus: NoMBCCPUBusInterceptor, ppu: PPU) -> NoMBCCPUBusInterceptor {
    NoMBCCPUBusInterceptor { rom: bus.rom, bus: CPUBus { ppu, ..bus.bus } }
}

/// The PPU's mode, LY and countdown.
pub open spec fn ppu_timing(ppu: PPU) -> (PPUMode, u8, usize) {
    (ppu.spec_mode(), ppu.ly, ppu.mode_wait_cycles)
}

/// Reads on the machine's bus change nothing, and writes leave the PPU's mode,
/// LY and countdown as they were.
pub proof fn lemma_bus_access_keeps_ppu_timing(bus: NoMBCCPUBusInterceptor, addr: u16, value: u8)
    ensures
        ppu_timing(bus.spec_after_write(addr, value).bus.ppu) == ppu_timing(bus.bus.ppu),
        bus.spec_after_read(addr) == bus,
{
    lemma_status_write_keeps_mode(bus.bus.ppu.lcd_status, LCDStatusRegister::spec_from_bits(value));
}

/// Executing an instruction on the machine's bus leaves the PPU's mode, LY and
/// countdown as they were.
pub proof fn lemma_execute_keeps_ppu_timing(i: Instruction, cpu: CPU, bus: NoMBCCPUBusInterceptor)
    ensures
        ppu_timing(spec_execute(i, cpu, bus).1.bus.ppu) == ppu_timing(bus.bus.ppu),
{
    assert forall|b: NoMBCCPUBusInterceptor, a: u16, v: u8|
        #![trigger b.spec_after_write(a, v)]
        #![trigger b.spec_after_read(a), b.spec_after_write(a, v)]
        ppu_timing(b.spec_after_write(a, v).bus.ppu) == ppu_timing(b.bus.ppu) && b.spec_after_read(a) == b by {
        lemma_bus_access_keeps_ppu_timing(b, a, v);
    }
    assert forall|b: NoMBCCPUBusInterceptor, a: u16| #[trigger] b.spec_after_read(a) == b by {
        lemma_bus_access_keeps_ppu_timing(b, a, 0);
    }
    match i {
        Instruction::ADCInstruction(x) => {},
        Instruction::ADDInstruction(x) => {},
        Instruction::ANDInstruction(x) => {},
        Instruction::BITInstruction(x) => {},
        Instruction::CALLInstruction(x) => {},
        Instruction::CCFInstruction(x) => {},
        Instruction::CPInstruction(x) => {},
        Instruction::CPLInstruction(x) => {},
        Instruction::DAAInstruction(x) => {},
        Instruction::DECInstruction(x) => {},
        Instruction::DIInstruction(x) => {},
        Instruction::EIInstruction(x) => {},
        Instruction::HALTInstruction(x) => {},
        Instruction::INCInstruction(x) => {},
        Instruction::JPInstruction(x) => {},
        Instruction::JRInstruction(x) => {},
        Instruction::LDHInstruction(x) => {},
        Instruction::LDInstruction(x) => {},
        Instruction::NOPInstruction(x) => {},
        Instruction::ORInstruction(x) => {},
        Instruction::POPInstruction(x) => {},
        Instruction::PUSHInstruction(x) => {},
        Instruction::RESInstruction(x) => {},
        Instruction::RETIInstruction(x) => {},
        Instruction::RETInstruction(x) => {},
        Instruction::RLAInstruction(x) => {},
        Instruction::RLCAInstruction(x) => {},
        Instruction::RLCInstruction(x) => {},
        Instruction::RLInstruction(x) => {},
        Instruction::RRAInstruction(x) => {},
        Instruction::RRCAInstruction(x) => {},
        Instruction::RRCInstruction(x) => {},
        Instruction::RRInstruction(x) => {},
        Instruction::RSTInstruction(x) => {},
        Instruction::SBCInstruction(x) => {},
        Instruction::SCFInstruction(x) => {},
        Instruction::SETInstruction(x) => {},
        Instruction::SLAInstruction(x) => {},
        Instruction::SRAInstruction(x) => {},
        Instruction::SRLInstruction(x) => {},
        Instruction::STOPInstruction(x) => {},
        Instruction::SUBInstruction(x) => {},
        Instruction::SWAPInstruction(x) => {},
        Instruction::XORInstruction(x) => {},
    }
}

/// One read from the machine only moves PC on by one.
proof fn lemma_advance_is_pc_step(m: Machine)
    requires
        m.cpu.registers.pc < 0xFFFF,
    ensures
        m.spec_advance() == m.spec_with_pc((m.cpu.registers.pc + 1) as u16),
{
    lemma_bus_access_keeps_ppu_timing(m.spec_bus(), m.cpu.registers.pc, 0);
    match m.cartridge {
        Cartridge::NoMBC(c) => {},
    }
}

/// `n` reads from the machine only move PC on by `n`.
proof fn lemma_advance_n_is_pc_step(m: Machine, n: nat)
    requires
        m.cpu.registers.pc + n <= 0xFFFF,
    ensures
        spec_advance_n(m, n) == m.spec_with_pc((m.cpu.registers.pc + n) as u16),
    decreases n,
{
    if n > 0 {
        lemma_advance_is_pc_step(m);
        let m1 = m.spec_with_pc((m.cpu.registers.pc + 1) as u16);
        lemma_advance_n_is_pc_step(m1, (n - 1) as nat);
        assert(m1.spec_with_pc((m1.cpu.registers.pc + (n - 1)) as u16) == m.spec_with_pc((m.cpu.registers.pc + n) as u16));
    } else {
        assert(m.spec_with_pc(m.cpu.registers.pc) == m) by {
            match m.cartridge {
                Cartridge::NoMBC(c) => {},
            }
        }
    }
}

/// What the machine fetches: the instruction decoded from the bytes at PC,
/// and the machine with PC past it.
proof fn lemma_fetch(m: Machine)
    requires
        spec_instruction_readable(m),
    ensures
        ({
            let pc = m.cpu.registers.pc;
            let opcode = m.spec_peek(pc);
            let n = spec_operand_count(opcode);
            let lo = if n >= 1 { m.spec_peek((pc + 1) as u16) } else { 0 };
            let hi = if n == 2 { m.spec_peek((pc + 2) as u16) } else { 0 };
            &&& pc + 1 + n <= 0xFFFF
            &&& m.spec_fetch() == (spec_decode(opcode, lo, hi), m.spec_with_pc((pc + 1 + n) as u16))
        }),
{
    let pc = m.cpu.registers.pc;
    let opcode = m.spec_peek(pc);
    let n = spec_operand_count(opcode);
    reveal_with_fuel(spec_can_read_n, 3);
    reveal_with_fuel(spec_read_exact, 3);
    reveal_with_fuel(spec_reads_made, 3);
    lemma_advance_is_pc_step(m);
    let m1 = m.spec_with_pc((pc + 1) as u16);
    if n >= 1 {
        lemma_advance_is_pc_step(m1);
    }
    if n == 2 {
        lemma_advance_is_pc_step(m1.spec_with_pc((pc + 2) as u16));
        assert(m1.spec_with_pc((pc + 2) as u16).spec_with_pc((pc + 3) as u16) == m.spec_with_pc((pc + 3) as u16));
    }
    if n >= 1 {
        assert(m1.spec_with_pc((pc + 2) as u16) == m.spec_with_pc((pc + 2) as u16));
    }
    assert(spec_read_exact(m1, n) is Some);
    lemma_advance_n_is_pc_step(m, 1 + n);
    assert(spec_reads_made(m1, n) == n);
}

/// Whether the machine's bus supports executing the instruction from this
/// CPU state (see `spec_executable`).
pub fn executable_on(i: Instruction, cpu: &CPU, bus: &NoMBCCPUBusInterceptor) -> (r: bool)
    ensures
        r == spec_executable(i, *cpu, *bus),
{
    let regs = &cpu.registers;
    let hl = regs.hl.into_bits();
    let sp = regs.sp;
    let call_possible = sp >= 3 && NoMBCCPUBusInterceptor::accepts_write(sp - 3)
        && NoMBCCPUBusInterceptor::accepts_write(sp - 2);
    let return_possible = sp <= 0xFFFD && NoMBCCPUBusInterceptor::accepts_read(sp)
        && NoMBCCPUBusInterceptor::accepts_read(sp + 1);
    match i {
        Instruction::CALLInstruction(c) => match c {
            CALLInstruction::N16(_) => call_possible,
            CALLInstruction::CCN16(cc, _) => !cc.matches(regs) || call_possible,
        },
        Instruction::CCFInstruction(_) => true,
        Instruction::CPInstruction(c) => match c {
            CPInstruction::AHL => NoMBCCPUBusInterceptor::accepts_read(hl),
            _ => true,
        },
        Instruction::DECInstruction(d) => match d {
            DECInstruction::HL => NoMBCCPUBusInterceptor::accepts_read(hl) && NoMBCCPUBusInterceptor::accepts_write(hl),
            _ => true,
        },
        Instruction::DIInstruction(_) => true,
        Instruction::EIInstruction(_) => true,
        Instruction::INCInstruction(d) => match d {
            INCInstruction::HL => NoMBCCPUBusInterceptor::accepts_read(hl) && NoMBCCPUBusInterceptor::accepts_write(hl),
            _ => true,
        },
        Instruction::JPInstruction(_) => true,
        Instruction::JRInstruction(_) => true,
        Instruction::LDHInstruction(l) => {
            let c = regs.bc.c();
            match l {
                LDHInstruction::N8A(offset) => NoMBCCPUBusInterceptor::accepts_write(0xFF00 + offset as u16),
                LDHInstruction::CA => NoMBCCPUBusInterceptor::accepts_write(0xFF00 + c as u16),
                LDHInstruction::AN8(offset) => NoMBCCPUBusInterceptor::accepts_read(0xFF00 + offset as u16),
                LDHInstruction::AC => NoMBCCPUBusInterceptor::accepts_read(0xFF00 + c as u16),
            }
        },
        Instruction::LDInstruction(l) => match l {
            LDInstruction::N16SP(addr) => addr < 0xFFFF && NoMBCCPUBusInterceptor::accepts_write(addr)
                && NoMBCCPUBusInterceptor::accepts_write(addr + 1),
            LDInstruction::HLR8(_) | LDInstruction::HLN8(_) | LDInstruction::HLIA | LDInstruction::HLDA => {
                NoMBCCPUBusInterceptor::accepts_write(hl)
            },
            LDInstruction::R8HL(_) | LDInstruction::AHLI | LDInstruction::AHLD => NoMBCCPUBusInterceptor::accepts_read(hl),
            LDInstruction::R16A(r) => NoMBCCPUBusInterceptor::accepts_write(regs.get_r16(r)),
            LDInstruction::N16A(addr) => NoMBCCPUBusInterceptor::accepts_write(addr),
            LDInstruction::AR16(r) => NoMBCCPUBusInterceptor::accepts_read(regs.get_r16(r)),
            LDInstruction::AN16(addr) => NoMBCCPUBusInterceptor::accepts_read(addr),
            LDInstruction::HLSPE8(_) | LDInstruction::SPHL => false,
            _ => true,
        },
        Instruction::NOPInstruction(_) => true,
        Instruction::ORInstruction(o) => match o {
            ORInstruction::AHL => NoMBCCPUBusInterceptor::accepts_read(hl),
            _ => true,
        },
        Instruction::RETIInstruction(_) => return_possible,
        Instruction::RETInstruction(r) => match r {
            RETInstruction::Conditional(cc) => !cc.matches(regs) || return_possible,
            RETInstruction::Unconditional => return_possible,
        },
        Instruction::XORInstruction(x) => match x {
            XORInstruction::AHL => NoMBCCPUBusInterceptor::accepts_read(hl),
            _ => true,
        },
        _ => false,
    }
}

/// Reads from the machine leave its bus as it was.
proof fn lemma_advance_keeps_bus(m: Machine, n: nat)
    ensures
        spec_advance_n(m, n).spec_bus() == m.spec_bus(),
    decreases n,
{
    if n > 0 {
        lemma_bus_access_keeps_ppu_timing(m.spec_bus(), m.cpu.registers.pc, 0);
        lemma_advance_keeps_bus(m.spec_advance(), (n - 1) as nat);
    }
}

/// Reading the instruction at PC from the machine never fails.
proof fn lemma_machine_reads(m: Machine)
    ensures
        spec_read_instruction(m) is Ok,
{
    reveal_with_fuel(spec_read_exact, 3);
}


/// The machine reads the byte at PC, with the bus's side effects, and moves PC
/// past it. It never ends.
impl ByteSource for Machine {
    open spec fn spec_can_read(&self) -> bool {
        &&& self.cpu.registers.pc < 0xFFFF
        &&& NoMBCCPUBusInterceptor::spec_accepts_read(self.cpu.registers.pc)
    }

    open spec fn spec_next(&self) -> Option<u8> {
        Some(self.spec_peek(self.cpu.registers.pc))
    }

    open spec fn spec_advance(&self) -> Machine {
        let regs = self.cpu.registers;
        Machine {
            cpu: CPU { registers: CPURegisters { pc: (regs.pc + 1) as u16, ..regs }, ..self.cpu },
            cartridge: self.cartridge.spec_with_cpu_bus(self.spec_bus().spec_after_read(regs.pc)),
            cpu_wait_cycles: self.cpu_wait_cycles,
        }
    }

    fn read_byte(&mut self) -> (r: Result<u8, ReadError>) {
        let pc = self.cpu.registers.pc;
        let b = self.cartridge.cpu_bus_mut().read(pc);
        self.cpu.registers.pc = pc + 1;
        Ok(b)
    }
}

} // verus!
