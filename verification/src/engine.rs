//! The execution engine and the frame scheduler: one instruction per tick,
//! `tick_rate` ticks per frame.

use crate::chip8::Chip8;
use crate::decode::decode;
use crate::decode::decode_spec;
use crate::decode::Decoded;
use crate::decode::Instruction;
use crate::error::Chip8Error;
use crate::machine::Machine;
use crate::machine::ENTRY_POINT;
use crate::machine::RAM_SIZE;
use crate::memory::opcode_at;
use vstd::prelude::*;

verus! {

/// How far `pc` lies from the entry point, modulo 65536.
pub open spec fn entry_offset(pc: u16) -> u16 {
    ((pc - ENTRY_POINT) % 0x10000) as u16
}

/// The outcome of a frame as the host sees it.
pub open spec fn reported(stopped: Option<Chip8Error>) -> Result<(), Chip8Error> {
    match stopped {
        Some(error) => Err(error),
        None => Ok(()),
    }
}

impl Machine {
    /// What carrying out one instruction makes of the machine.
    ///
    /// Opaque, to keep proofs about whole ticks small: `reveal` it where a
    /// proof needs to know what a given instruction does.
    #[verifier::opaque]
    pub open spec fn execute(self, instruction: Instruction) -> Result<Machine, Chip8Error> {
        match instruction {
            Instruction::Scd { n } => Ok(self.scd(n)),
            Instruction::Scu { n } => Ok(self.scu(n)),
            Instruction::Cls => Ok(self.cls()),
            Instruction::Ret => self.ret(),
            Instruction::Scr => Ok(self.scr()),
            Instruction::Scl => Ok(self.scl()),
            Instruction::Low => Ok(self.low()),
            Instruction::High => Ok(self.high()),
            Instruction::Jp { nnn } => Ok(self.jp_addr(nnn)),
            Instruction::Call { nnn } => self.call_addr(nnn),
            Instruction::SeVxByte { x, kk } => Ok(self.se_vx_byte(x, kk)),
            Instruction::SneVxByte { x, kk } => Ok(self.sne_vx_byte(x, kk)),
            Instruction::SeVxVy { x, y } => Ok(self.se_vx_vy(x, y)),
            Instruction::LdVxByte { x, kk } => Ok(self.ld_vx_byte(x, kk)),
            Instruction::AddVxByte { x, kk } => Ok(self.add_vx_byte(x, kk)),
            Instruction::LdVxVy { x, y } => Ok(self.ld_vx_vy(x, y)),
            Instruction::OrVxVy { x, y } => Ok(self.or_vx_vy(x, y)),
            Instruction::AndVxVy { x, y } => Ok(self.and_vx_vy(x, y)),
            Instruction::XorVxVy { x, y } => Ok(self.xor_vx_vy(x, y)),
            Instruction::AddVxVy { x, y } => Ok(self.add_vx_vy(x, y)),
            Instruction::SubVxVy { x, y } => Ok(self.sub_vx_vy(x, y)),
            Instruction::ShrVx { x } => Ok(self.shr_vx_vy(x)),
            Instruction::SubnVxVy { x, y } => Ok(self.subn_vx_vy(x, y)),
            Instruction::ShlVx { x } => Ok(self.shl_vx_vy(x)),
            Instruction::SneVxVy { x, y } => Ok(self.sne_vx_vy(x, y)),
            Instruction::LdIAddr { nnn } => Ok(self.ld_i_addr(nnn)),
            Instruction::JpV0Addr { nnn } => Ok(self.jp_v0_addr(nnn)),
            Instruction::RndVxByte { x, kk } => Ok(self.rnd_vx_byte(x, kk)),
            Instruction::DrwVxVyNibble { x, y, n } => self.drw_vx_vy_nibble(x, y, n),
            Instruction::SkpVx { x } => Ok(self.skp_vx(x)),
            Instruction::SknpVx { x } => Ok(self.sknp_vx(x)),
            Instruction::LdVxDt { x } => Ok(self.ld_vx_dt(x)),
            Instruction::LdVxK { x } => Ok(self.ld_vx_k(x)),
            Instruction::LdDtVx { x } => Ok(self.ld_dt_vx(x)),
            Instruction::LdStVx { x } => Ok(self.ld_st_vx(x)),
            Instruction::AddIVx { x } => Ok(self.add_i_vx(x)),
            Instruction::LdFVx { x } => Ok(self.ld_f_vx(x)),
            Instruction::LdHfVx { x } => Ok(self.ld_hf_vx(x)),
            Instruction::LdBVx { x } => self.ld_b_vx(x),
            Instruction::LdIVx { x } => self.ld_i_vx(x),
            Instruction::LdVxI { x } => self.ld_vx_i(x),
        }
    }

    /// One tick: the opcode at the program counter is fetched, decoded and
    /// carried out.
    ///
    /// Refused when the opcode does not lie within memory, when it names no
    /// instruction or one that is not carried out, and when the instruction
    /// itself is refused.
    pub open spec fn tick(self) -> Result<Machine, Chip8Error> {
        if self.pc + 1 >= RAM_SIZE {
            Err(Chip8Error::OutOfBoundsAccess(self.pc))
        } else {
            let opcode = opcode_at(self.memory, self.pc);
            match decode_spec(opcode) {
                Decoded::Run(instruction) => self.execute(instruction),
                Decoded::Unimplemented => Err(Chip8Error::UnimplementedOpcode(opcode)),
                Decoded::Unknown => Err(
                    Chip8Error::UnknownOpcode(opcode, entry_offset(self.pc)),
                ),
            }
        }
    }

    /// Up to `ticks` ticks in a row: the machine they leave, and the error
    /// that cut them short, if one did. The refused tick and those after it
    /// change nothing.
    pub open spec fn run(self, ticks: nat) -> (Machine, Option<Chip8Error>)
        decreases ticks,
    {
        if ticks == 0 {
            (self, None)
        } else {
            match self.tick() {
                Ok(next) => next.run((ticks - 1) as nat),
                Err(error) => (self, Some(error)),
            }
        }
    }

    /// One frame: both timers count down once, then `tick_rate` ticks run.
    pub open spec fn update(self) -> (Machine, Option<Chip8Error>) {
        self.update_timers().run(self.tick_rate as nat)
    }
}

impl Chip8 {
    /// Carries out one decoded instruction.
    pub(crate) fn execute(&mut self, instruction: Instruction) -> (result: Result<
        (),
        Chip8Error,
    >)
        requires
            instruction.wf(),
        ensures
            old(self)@.settles(old(self)@.execute(instruction), result, final(self)@),
    {
        reveal(Machine::execute);
        match instruction {
            Instruction::Scd { n } => self.scd(n),
            Instruction::Scu { n } => self.scu(n),
            Instruction::Cls => self.cls(),
            Instruction::Ret => {
                return self.ret();
            },
            Instruction::Scr => self.scr(),
            Instruction::Scl => self.scl(),
            Instruction::Low => self.low(),
            Instruction::High => self.high(),
            Instruction::Jp { nnn } => self.jp_addr(nnn),
            Instruction::Call { nnn } => {
                return self.call_addr(nnn);
            },
            Instruction::SeVxByte { x, kk } => self.se_vx_byte(x, kk),
            Instruction::SneVxByte { x, kk } => self.sne_vx_byte(x, kk),
            Instruction::SeVxVy { x, y } => self.se_vx_vy(x, y),
            Instruction::LdVxByte { x, kk } => self.ld_vx_byte(x, kk),
            Instruction::AddVxByte { x, kk } => self.add_vx_byte(x, kk),
            Instruction::LdVxVy { x, y } => self.ld_vx_vy(x, y),
            Instruction::OrVxVy { x, y } => self.or_vx_vy(x, y),
            Instruction::AndVxVy { x, y } => self.and_vx_vy(x, y),
            Instruction::XorVxVy { x, y } => self.xor_vx_vy(x, y),
            Instruction::AddVxVy { x, y } => self.add_vx_vy(x, y),
            Instruction::SubVxVy { x, y } => self.sub_vx_vy(x, y),
            Instruction::ShrVx { x } => self.shr_vx_vy(x),
            Instruction::SubnVxVy { x, y } => self.subn_vx_vy(x, y),
            Instruction::ShlVx { x } => self.shl_vx_vy(x),
            Instruction::SneVxVy { x, y } => self.sne_vx_vy(x, y),
            Instruction::LdIAddr { nnn } => self.ld_i_addr(nnn),
            Instruction::JpV0Addr { nnn } => self.jp_v0_addr(nnn),
            Instruction::RndVxByte { x, kk } => self.rnd_vx_byte(x, kk),
            Instruction::DrwVxVyNibble { x, y, n } => {
                return self.drw_vx_vy_nibble(x, y, n);
            },
            Instruction::SkpVx { x } => self.skp_vx(x),
            Instruction::SknpVx { x } => self.sknp_vx(x),
            Instruction::LdVxDt { x } => self.ld_vx_dt(x),
            Instruction::LdVxK { x } => self.ld_vx_k(x),
            Instruction::LdDtVx { x } => self.ld_dt_vx(x),
            Instruction::LdStVx { x } => self.ld_st_vx(x),
            Instruction::AddIVx { x } => self.add_i_vx(x),
            Instruction::LdFVx { x } => self.ld_f_vx(x),
            Instruction::LdHfVx { x } => self.ld_hf_vx(x),
            Instruction::LdBVx { x } => {
                return self.ld_b_vx(x);
            },
            Instruction::LdIVx { x } => {
                return self.ld_i_vx(x);
            },
            Instruction::LdVxI { x } => {
                return self.ld_vx_i(x);
            },
        }
        Ok(())
    }

    /// Runs the instruction at the program counter.
    ///
    /// On an error nothing has changed: an instruction either takes effect
    /// as a whole or not at all.
    pub fn tick(&mut self) -> (result: Result<(), Chip8Error>)
        ensures
            old(self)@.settles(old(self)@.tick(), result, final(self)@),
            final(self)@.wf(),
    {
        proof {
            use_type_invariant(&*self);
        }
        if self.pc as usize + 1 >= RAM_SIZE {
            return Err(Chip8Error::OutOfBoundsAccess(self.pc));
        }
        let opcode: u16 = self.get_opcode();
        let result = match decode(opcode) {
            Decoded::Run(instruction) => self.execute(instruction),
            Decoded::Unimplemented => Err(Chip8Error::UnimplementedOpcode(opcode)),
            Decoded::Unknown => Err(
                Chip8Error::UnknownOpcode(opcode, self.pc.wrapping_sub(ENTRY_POINT as u16)),
            ),
        };
        proof {
            use_type_invariant(&*self);
        }
        result
    }

    /// Runs one frame: counts the timers down once, then runs as many
    /// instructions as the tick rate says.
    ///
    /// The first instruction that fails ends the frame, and its error is
    /// returned; the instructions before it have taken effect, the failing
    /// one and those after it have not.
    pub fn update(&mut self) -> (result: Result<(), Chip8Error>)
        ensures
            final(self)@ == old(self)@.update().0,
            result == reported(old(self)@.update().1),
            final(self)@.wf(),
    {
        self.update_timers();
        let ticks: u16 = self.tick_rate;
        let mut done: u16 = 0;
        while done < ticks
            invariant
                done <= ticks,
                self@.wf(),
                self@.run((ticks - done) as nat) == old(self)@.update(),
            decreases ticks - done,
        {
            match self.tick() {
                Ok(()) => {},
                Err(error) => {
                    return Err(error);
                },
            }
            done = done + 1;
        }
        Ok(())
    }
}

} // verus!
