//! The machine: a processor, a memory and the signal that keeps it running.

use crate::program::Program;
use crate::vm::callbacks::Callbacks;
use crate::vm::cpu::alu;
use crate::vm::cpu::alu::octets_of;
use crate::vm::cpu::flags::Flag;
use crate::vm::cpu::processor::Processor;
use crate::vm::cpu::registers::{
    DoubleRegisterSelector, RegisterSelector, TargetDoubleRegisterSelector, TargetRegisterSelector,
};
use crate::vm::cpu::state::State;
use crate::vm::instructions::opcodes::Opcode;
use crate::vm::ram::{with_word_at, word_at, Memory};
use vstd::prelude::*;

verus! {

/// The number of steps after which the driver's loop gives up: 2^64 - 1.
pub const STEP_LIMIT: u64 = 0xFFFF_FFFF_FFFF_FFFF;

/// The memory with a program image copied in from `start` on. Every other
/// octet stays.
pub open spec fn with_image_at(ram: Seq<u8>, image: Seq<u8>, start: u16) -> Seq<u8> {
    Seq::new(
        ram.len(),
        |i: int|
            if start <= i < start + image.len() {
                image[i - start]
            } else {
                ram[i]
            },
    )
}

/// A processor with its memory. `run` keeps the driver's loop going; `ticks`
/// counts the clock ticks of the instructions retired so far and stops
/// counting at its largest value.
pub struct Machine {
    pub cpu: Processor,
    pub ram: Memory,
    pub run: bool,
    pub ticks: u64,
}

/// The mathematical model of a machine: the same processor, the memory as a
/// sequence of octets.
#[verifier::ext_equal]
pub struct MachineView {
    pub cpu: Processor,
    pub ram: Seq<u8>,
    pub run: bool,
    pub ticks: u64,
}

impl View for Machine {
    type V = MachineView;

    open spec fn view(&self) -> MachineView {
        MachineView { cpu: self.cpu, ram: self.ram@, run: self.run, ticks: self.ticks }
    }
}

impl MachineView {
    /// Whether the memory has its 65 536 octets. The view of every machine
    /// has.
    pub open spec fn wf(self) -> bool {
        self.ram.len() == 65536
    }

    /// A machine after a reset: registers and memory zero, not running.
    pub open spec fn initial() -> MachineView {
        MachineView {
            cpu: Processor { state: State::new_spec(), halted: false },
            ram: Seq::new(65536, |i: int| 0u8),
            run: false,
            ticks: 0,
        }
    }

    /// The machine with another processor state.
    pub open spec fn with_state(self, state: State) -> MachineView {
        MachineView { cpu: Processor { state, ..self.cpu }, ..self }
    }

    /// The machine with another memory.
    pub open spec fn with_ram(self, ram: Seq<u8>) -> MachineView {
        MachineView { ram, ..self }
    }

    /// The machine after `tstates` more clock ticks.
    pub open spec fn clock(self, tstates: u8) -> MachineView {
        MachineView {
            ticks: if self.ticks + tstates > u64::MAX {
                u64::MAX
            } else {
                (self.ticks + tstates) as u64
            },
            ..self
        }
    }

    /// The machine told to stop.
    pub open spec fn stop(self) -> MachineView {
        MachineView { run: false, ..self }
    }

    /// The machine set to run from `address`: the program counter is there,
    /// the machine runs and the processor is not halted.
    pub open spec fn started_at(self, address: u16) -> MachineView {
        MachineView {
            cpu: Processor { halted: false, ..self.goto(address).cpu },
            run: true,
            ..self
        }
    }

    /// One turn of the driver's loop: a halted processor lets the time of a
    /// NOP pass and leaves the program counter where it is; another one
    /// executes a step.
    pub open spec fn cycle(self) -> MachineView {
        if self.cpu.halted {
            self.nop()
        } else {
            self.execute()
        }
    }

    /// The machine after the driver's loop without hooks: a cycle after
    /// another while the machine runs, `limit` cycles at most.
    pub open spec fn run_for(self, limit: nat) -> MachineView
        decreases limit,
    {
        if limit == 0 || !self.run {
            self
        } else {
            self.cycle().run_for((limit - 1) as nat)
        }
    }

    /// An 8-bit register.
    pub open spec fn get_register(self, selector: RegisterSelector) -> u8 {
        self.cpu.state.read8(selector)
    }

    /// The machine with an 8-bit register replaced.
    pub open spec fn set_register(self, target: RegisterSelector, value: u8) -> MachineView {
        self.with_state(self.cpu.state.write8(target, value))
    }

    /// A pair or counter as a word.
    pub open spec fn get_register_pair(self, selector: DoubleRegisterSelector) -> u16 {
        self.cpu.state.word(selector)
    }

    /// The machine with a pair or counter replaced by a word.
    pub open spec fn set_register_pair(
        self,
        target: DoubleRegisterSelector,
        value: u16,
    ) -> MachineView {
        self.with_state(self.cpu.state.write16(target, octets_of(value)))
    }

    /// The flag octet.
    pub open spec fn flags(self) -> u8 {
        self.cpu.state.flags()
    }

    /// Whether a flag is set.
    pub open spec fn flag(self, flag: Flag) -> bool {
        flag.is_set(self.flags())
    }

    /// The machine with another flag octet.
    pub open spec fn with_flags(self, flags: u8) -> MachineView {
        self.with_state(self.cpu.state.with_flags(flags))
    }

    /// The machine with one flag set or cleared.
    pub open spec fn with_flag(self, flag: Flag, value: bool) -> MachineView {
        self.with_flags(flag.put(self.flags(), value))
    }

    /// The program counter.
    pub open spec fn pc(self) -> u16 {
        self.cpu.state.word(DoubleRegisterSelector::PC)
    }

    /// The stack pointer.
    pub open spec fn sp(self) -> u16 {
        self.cpu.state.word(DoubleRegisterSelector::SP)
    }

    /// The machine with the program counter at `address`.
    pub open spec fn goto(self, address: u16) -> MachineView {
        self.set_register_pair(DoubleRegisterSelector::PC, address)
    }

    /// The octet in memory at `address`.
    pub open spec fn read_u8(self, address: u16) -> u8 {
        self.ram[address as int]
    }

    /// The word in memory at `address`, little-endian.
    pub open spec fn read_u16(self, address: u16) -> u16 {
        word_at(self.ram, address)
    }

    /// The machine with an octet stored at `address`.
    pub open spec fn write_u8(self, address: u16, value: u8) -> MachineView {
        self.with_ram(self.ram.update(address as int, value))
    }

    /// The machine with a word stored at `address`, little-endian.
    pub open spec fn write_u16(self, address: u16, value: u16) -> MachineView {
        self.with_ram(with_word_at(self.ram, address, value))
    }
}

impl Machine {
    /// The view of a machine is well-formed.
    pub proof fn lemma_view_wf(&self)
        ensures
            self@.wf(),
    {
        self.ram.lemma_size();
    }

    /// A machine after a reset: registers and memory zero, not running.
    pub fn new() -> (machine: Machine)
        ensures
            machine@ == MachineView::initial(),
    {
        Machine { cpu: Processor::new(), ram: Memory::new(), run: false, ticks: 0 }
    }

    /// Copies a program into memory from `start_address` on. A program that
    /// would reach past the last address is rejected: nothing is written and
    /// the result is `false`.
    pub fn load_at(&mut self, program: &Program, start_address: u16) -> (will_fit: bool)
        ensures
            will_fit == (start_address + program@.len() <= 0x1_0000),
            will_fit ==> final(self)@ == old(self)@.with_ram(
                with_image_at(old(self)@.ram, program@, start_address),
            ),
            !will_fit ==> final(self)@ == old(self)@,
    {
        let image: &Vec<u8> = program.raw();
        let length: usize = image.len();
        let will_fit: bool = length <= 0x1_0000 - start_address as usize;
        if will_fit {
            let mut address: u16 = start_address;
            let mut i: usize = 0;
            while i < length
                invariant
                    i <= length,
                    length == image@.len(),
                    start_address + length <= 0x1_0000,
                    i < length ==> address == start_address + i,
                    self.cpu == old(self).cpu,
                    self.run == old(self).run,
                    self.ticks == old(self).ticks,
                    self.ram@ == with_image_at(
                        old(self).ram@,
                        image@.take(i as int),
                        start_address,
                    ),
                decreases length - i,
            {
                proof {
                    self.ram.lemma_size();
                    old(self).ram.lemma_size();
                }
                self.ram.write_u8(address, image[i]);
                address = address.wrapping_add(1);
                i = i + 1;
                assert(self.ram@ =~= with_image_at(
                    old(self).ram@,
                    image@.take(i as int),
                    start_address,
                ));
            }
            assert(image@.take(length as int) =~= image@);
        } else {
            assert(self@ =~= old(self)@);
        }
        proof {
            old(self).ram.lemma_size();
            assert(with_image_at(old(self).ram@, image@.take(0), start_address) =~= old(self).ram@);
        }
        will_fit
    }

    /// Copies a program into memory from address zero on.
    pub fn load(&mut self, program: &Program) -> (will_fit: bool)
        ensures
            will_fit == (program@.len() <= 0x1_0000),
            will_fit ==> final(self)@ == old(self)@.with_ram(
                with_image_at(old(self)@.ram, program@, 0),
            ),
            !will_fit ==> final(self)@ == old(self)@,
    {
        self.load_at(program, 0)
    }

    /// Runs the machine from `address` without hooks, until it is stopped.
    pub fn start_at(&mut self, address: u16)
        ensures
            final(self)@ == old(self)@.started_at(address).run_for(STEP_LIMIT as nat),
    {
        let mut callbacks = Callbacks::new();
        self.start_with_options(address, &mut callbacks)
    }

    /// Runs the machine from address zero without hooks, until it is stopped.
    pub fn start(&mut self)
        ensures
            final(self)@ == old(self)@.started_at(0).run_for(STEP_LIMIT as nat),
    {
        self.start_at(0);
    }

    /// Runs the machine from `address`: the program counter is set, the
    /// processor is released from a halt, and cycle follows cycle until the
    /// machine is stopped: by a hook, or by a fetch at the last address. A
    /// halted processor executes nothing and calls no hook, so that only the
    /// limit of 2^64 - 1 cycles ends its loop. The hooks stay registered.
    /// Without hooks the result is that of `run_for`; a hook may leave the
    /// machine in any state.
    pub fn start_with_options(&mut self, address: u16, callbacks: &mut Callbacks)
        ensures
            final(callbacks)@.same_shape(old(callbacks)@),
            old(callbacks)@.is_empty() ==> final(self)@ == old(self)@.started_at(address).run_for(
                STEP_LIMIT as nat,
            ),
    {
        self.cpu.goto(address);
        self.cpu.unhalt();
        self.run = true;
        let ghost silent = callbacks@.is_empty();
        let ghost begin = self@;
        let mut cycles: u64 = 0;
        while self.run && cycles < STEP_LIMIT
            invariant
                callbacks@.same_shape(old(callbacks)@),
                silent == old(callbacks)@.is_empty(),
                silent == callbacks@.is_empty(),
                silent ==> self@.run_for((STEP_LIMIT - cycles) as nat) == begin.run_for(
                    STEP_LIMIT as nat,
                ),
            decreases STEP_LIMIT - cycles,
        {
            let ghost registered = callbacks@;
            if self.cpu.is_halted() {
                self.nop();
            } else {
                self.execute_with(callbacks);
            }
            proof {
                callbacks@.lemma_same_shape(registered, Opcode::Nop);
            }
            cycles = cycles + 1;
        }
    }

    /// Tells the driver to leave its loop once the current step has retired.
    pub fn stop(&mut self)
        ensures
            final(self)@ == old(self)@.stop(),
    {
        self.run = false;
    }

    /// Records the clock ticks of an instruction. The count never decreases:
    /// at its largest value it stays.
    pub fn clock(&mut self, tstates: u8)
        ensures
            final(self)@ == old(self)@.clock(tstates),
            final(self)@.ticks >= old(self)@.ticks,
    {
        self.ticks = self.ticks.saturating_add(tstates as u64);
    }

    /// Reads an 8-bit register.
    pub fn get_register(&self, selector: RegisterSelector) -> (value: u8)
        ensures
            value == self@.get_register(selector),
    {
        self.cpu.state.get(selector)
    }

    /// Reads an 8-bit register through a selector for writing.
    pub fn get_register_mut(&mut self, selector: TargetRegisterSelector) -> (value: u8)
        ensures
            value == old(self)@.get_register(selector),
            final(self)@ == old(self)@,
    {
        self.cpu.state.get(selector)
    }

    /// Reads a pair or counter as a word.
    pub fn get_register_pair(&self, selector: DoubleRegisterSelector) -> (value: u16)
        ensures
            value == self@.get_register_pair(selector),
    {
        alu::get_word(self.cpu.state.get_bytes(selector))
    }

    /// Reads a pair or counter as a word through a selector for writing.
    pub fn get_register_pair_mut(&mut self, selector: TargetDoubleRegisterSelector) -> (value: u16)
        ensures
            value == old(self)@.get_register_pair(selector),
            final(self)@ == old(self)@,
    {
        alu::get_word(self.cpu.state.get_bytes(selector))
    }

    /// Writes an 8-bit register.
    pub fn set_register(&mut self, selector: TargetRegisterSelector, value: u8)
        ensures
            final(self)@ == old(self)@.set_register(selector, value),
    {
        self.cpu.state.assign(selector, value);
    }

    /// Writes a word into a pair or counter.
    pub fn set_register_pair(&mut self, selector: TargetDoubleRegisterSelector, value: u16)
        ensures
            final(self)@ == old(self)@.set_register_pair(selector, value),
            final(self)@.get_register_pair(selector) == value,
    {
        self.cpu.state.assign_word(selector, value);
    }
}


impl MachineView {
    /// A machine that does not run is left as it is by the driver's loop.
    pub proof fn lemma_stopped(self, limit: nat)
        requires
            !self.run,
        ensures
            self.run_for(limit) == self,
    {
    }

    /// While the processor is halted, the driver's loop only lets time
    /// pass: registers, counters and memory stay, and the machine is still
    /// halted and running after any number of cycles.
    pub proof fn lemma_halted(self, limit: nat)
        requires
            self.cpu.halted,
            self.run,
        ensures
            self.run_for(limit).cpu == self.cpu,
            self.run_for(limit).ram == self.ram,
            self.run_for(limit).run,
            self.run_for(limit).ticks >= self.ticks,
        decreases limit,
    {
        reveal(MachineView::nop);
        if limit > 0 {
            self.cycle().lemma_halted((limit - 1) as nat);
        }
    }
}

} // verus!
