use vstd::prelude::*;

use crate::keypad::{first_pressed, get_pressed_key, is_key_pressed, key_is_pressed};
use crate::opcode::{decode_spec, OpCode};

verus! {

/// Size of the memory image in bytes.
pub const RAM_SIZE: usize = 4096;
/// Number of general-purpose registers.
pub const REGISTER_COUNT: usize = 16;
/// Capacity of the call stack.
pub const STACK_SIZE: usize = 16;
/// Address at which programs are loaded; bytes below it are reserved.
pub const OFFSET_USABLE_MEM: usize = 0x200;
/// Largest program that fits above the reserved area.
pub const MAX_ROM_SIZE: usize = 3584;
/// Size of one built-in glyph sprite; glyph `c` starts at address `5 * c`.
pub const GLYPH_SIZE: u16 = 5;
/// Display width in pixels; draw origins are taken modulo it.
pub const SCREEN_WIDTH: u32 = 64;
/// Display height in pixels; draw origins are taken modulo it.
pub const SCREEN_HEIGHT: u32 = 32;
/// Ticks per second while the machine runs.
pub const FREQUENCY: u32 = 60;
/// Polls per second once the machine has halted.
pub const IDLE_FREQUENCY: u32 = 5;

/// Why a machine stopped executing without an error.
#[derive(Clone, Copy, Debug, PartialEq, Eq, Structural)]
pub enum HaltReason {
    /// A `0NNN` instruction asked for shutdown.
    Shutdown,
    /// An instruction left the program counter where it was.
    SelfJump,
}

/// The execution engine's state.
#[derive(Clone, Copy, Debug, PartialEq, Eq, Structural)]
pub enum RunState {
    Running,
    /// `FX0A` found no key held; the same instruction is fetched again on
    /// the next tick.
    WaitingForKey,
    /// Terminal: no further instruction executes.
    Halted { reason: HaltReason },
}

/// The fatal conditions of loading and execution.
#[derive(Clone, Copy, Debug, PartialEq, Eq, Structural)]
pub enum Chip8Error {
    /// The program is larger than the usable memory by `overflow` bytes.
    RomTooLarge { overflow: usize },
    /// The word fetched at `address` matches no known opcode.
    UnknownOpcode { word: u16, address: u16 },
    /// A return at `address` found the call stack empty.
    StackUnderflow { address: u16 },
    /// A call at `address` found the call stack full.
    StackOverflow { address: u16 },
    /// No whole instruction word can be fetched at `address`.
    PcOutOfBounds { address: u16 },
    /// The instruction at `address` would access memory past the end,
    /// starting from the index register's value `index`.
    MemoryOutOfBounds { address: u16, index: u16 },
}

/// A request to the display that one instruction makes.
#[derive(Debug)]
pub enum Effect {
    Nothing,
    ClearScreen,
    /// Draw the rows `sprite` (one byte per row, most significant bit
    /// leftmost) with its top-left corner at (`x`, `y`).
    DrawSprite { x: u8, y: u8, sprite: Vec<u8> },
}

/// The mathematical value of an [`Effect`].
pub enum EffectView {
    Nothing,
    ClearScreen,
    DrawSprite { x: u8, y: u8, sprite: Seq<u8> },
}

impl View for Effect {
    type V = EffectView;

    open spec fn view(&self) -> EffectView {
        match self {
            Effect::Nothing => EffectView::Nothing,
            Effect::ClearScreen => EffectView::ClearScreen,
            Effect::DrawSprite { x, y, sprite } => EffectView::DrawSprite {
                x: *x,
                y: *y,
                sprite: sprite@,
            },
        }
    }
}

/// The machine state as a mathematical value.
pub struct MachineState {
    pub ram: Seq<u8>,
    pub v: Seq<u8>,
    pub i: u16,
    pub stack: Seq<u16>,
    pub delay_timer: u8,
    pub sound_timer: u8,
    pub pc: u16,
    pub state: RunState,
}

impl MachineState {
    /// Memory holds 4096 bytes, there are sixteen registers, and the call
    /// stack is within its capacity.
    pub open spec fn wf(self) -> bool {
        &&& self.ram.len() == RAM_SIZE
        &&& self.v.len() == REGISTER_COUNT
        &&& self.stack.len() <= STACK_SIZE
    }

    /// Halted is terminal: no further instruction executes.
    pub open spec fn is_halted(self) -> bool {
        self.state is Halted
    }

    /// The big-endian word at the program counter.
    pub open spec fn fetch(self) -> u16 {
        (self.ram[self.pc as int] * 256 + self.ram[self.pc + 1]) as u16
    }

    /// The state with the program counter moved to `pc`.
    pub open spec fn with_pc(self, pc: int) -> MachineState {
        MachineState { pc: pc as u16, ..self }
    }

    /// The state with register `Vx` set to `value`.
    pub open spec fn with_register(self, x: u8, value: u8) -> MachineState {
        MachineState { v: self.v.update(x as int, value), ..self }
    }

    /// Falls through to the next instruction, or over it when `skip` holds.
    pub open spec fn advance(self, skip: bool) -> MachineState {
        self.with_pc(self.pc + if skip { 4int } else { 2int })
    }

    /// Writes `value` to register `x` and falls through.
    pub open spec fn assign(self, x: u8, value: u8) -> MachineState {
        self.with_register(x, value).advance(false)
    }

    /// Writes `flag` to VF, then `value` to register `x`, and falls through.
    pub open spec fn assign_with_flag(self, x: u8, value: u8, flag: u8) -> MachineState {
        self.with_register(15, flag).with_register(x, value).advance(false)
    }
}

/// A fresh machine: memory and registers zeroed, program counter at the
/// start of the usable memory, empty stack, timers at zero.
pub open spec fn initial_state() -> MachineState {
    MachineState {
        ram: Seq::new(RAM_SIZE as nat, |a: int| 0u8),
        v: Seq::new(REGISTER_COUNT as nat, |k: int| 0u8),
        i: 0,
        stack: Seq::empty(),
        delay_timer: 0,
        sound_timer: 0,
        pc: OFFSET_USABLE_MEM as u16,
        state: RunState::Running,
    }
}

/// Memory with `rom` copied to the usable area and every other byte kept.
pub open spec fn with_rom(ram: Seq<u8>, rom: Seq<u8>) -> Seq<u8> {
    Seq::new(
        ram.len(),
        |a: int|
            if OFFSET_USABLE_MEM <= a < OFFSET_USABLE_MEM + rom.len() {
                rom[a - OFFSET_USABLE_MEM]
            } else {
                ram[a]
            },
    )
}

/// Memory with registers `V0..=Vx` stored from address `i` on.
pub open spec fn stored_registers(ram: Seq<u8>, v: Seq<u8>, i: int, x: int) -> Seq<u8> {
    Seq::new(ram.len(), |a: int| if i <= a <= i + x { v[a - i] } else { ram[a] })
}

/// Registers with `V0..=Vx` loaded from address `i` on.
pub open spec fn loaded_registers(v: Seq<u8>, ram: Seq<u8>, i: int, x: int) -> Seq<u8> {
    Seq::new(v.len(), |k: int| if k <= x { ram[i + k] } else { v[k] })
}

/// Whether `count` bytes from `index` on lie inside memory.
pub open spec fn in_memory(index: u16, count: int) -> bool {
    index + count <= RAM_SIZE
}

/// What executing `op` at the program counter of `m` does, given the keypad
/// state `keys` and the random byte `random`: the next state, with the
/// program counter already advanced or redirected, and the request to the
/// display; or the fatal error, which leaves the machine as it was.
pub open spec fn execute_spec(m: MachineState, op: OpCode, keys: u16, random: u8) -> Result<
    (MachineState, EffectView),
    Chip8Error,
> {
    let v = m.v;
    if m.pc + 1 >= RAM_SIZE {
        Err(Chip8Error::PcOutOfBounds { address: m.pc })
    } else {
        match op {
            OpCode::MachineCall { .. } => Ok(
                (
                    MachineState {
                        state: RunState::Halted { reason: HaltReason::Shutdown },
                        ..m.advance(false)
                    },
                    EffectView::Nothing,
                ),
            ),
            OpCode::ClearScreen => Ok((m.advance(false), EffectView::ClearScreen)),
            OpCode::Return => if m.stack.len() == 0 {
                Err(Chip8Error::StackUnderflow { address: m.pc })
            } else {
                Ok(
                    (
                        MachineState { stack: m.stack.drop_last(), ..m.with_pc(m.stack.last() as int) },
                        EffectView::Nothing,
                    ),
                )
            },
            OpCode::Jump { nnn } => Ok((m.with_pc(nnn as int), EffectView::Nothing)),
            OpCode::Call { nnn } => if m.stack.len() >= STACK_SIZE {
                Err(Chip8Error::StackOverflow { address: m.pc })
            } else {
                Ok(
                    (
                        MachineState {
                            stack: m.stack.push((m.pc + 2) as u16),
                            ..m.with_pc(nnn as int)
                        },
                        EffectView::Nothing,
                    ),
                )
            },
            OpCode::SkipIfEqual { x, nn } => Ok((m.advance(v[x as int] == nn), EffectView::Nothing)),
            OpCode::SkipIfNotEqual { x, nn } => Ok(
                (m.advance(v[x as int] != nn), EffectView::Nothing),
            ),
            OpCode::SkipIfRegistersEqual { x, y } => Ok(
                (m.advance(v[x as int] == v[y as int]), EffectView::Nothing),
            ),
            OpCode::Load { x, nn } => Ok((m.assign(x, nn), EffectView::Nothing)),
            OpCode::AddImmediate { x, nn } => Ok(
                (m.assign(x, ((v[x as int] + nn) % 256) as u8), EffectView::Nothing),
            ),
            OpCode::Assign { x, y } => Ok((m.assign(x, v[y as int]), EffectView::Nothing)),
            OpCode::Or { x, y } => Ok((m.assign(x, v[x as int] | v[y as int]), EffectView::Nothing)),
            OpCode::And { x, y } => Ok((m.assign(x, v[x as int] & v[y as int]), EffectView::Nothing)),
            OpCode::Xor { x, y } => Ok((m.assign(x, v[x as int] ^ v[y as int]), EffectView::Nothing)),
            OpCode::AddWithCarry { x, y } => Ok(
                (
                    m.assign_with_flag(
                        x,
                        ((v[x as int] + v[y as int]) % 256) as u8,
                        if v[x as int] + v[y as int] > 255 { 1u8 } else { 0u8 },
                    ),
                    EffectView::Nothing,
                ),
            ),
            OpCode::Subtract { x, y } => Ok(
                (
                    m.assign_with_flag(
                        x,
                        ((256 + v[x as int] - v[y as int]) % 256) as u8,
                        if v[x as int] >= v[y as int] { 1u8 } else { 0u8 },
                    ),
                    EffectView::Nothing,
                ),
            ),
            OpCode::ShiftRight { x } => Ok(
                (
                    m.assign_with_flag(x, (v[x as int] / 2) as u8, (v[x as int] % 2) as u8),
                    EffectView::Nothing,
                ),
            ),
            OpCode::ReverseSubtract { x, y } => Ok(
                (
                    m.assign_with_flag(
                        x,
                        ((256 + v[y as int] - v[x as int]) % 256) as u8,
                        if v[y as int] >= v[x as int] { 1u8 } else { 0u8 },
                    ),
                    EffectView::Nothing,
                ),
            ),
            OpCode::ShiftLeft { x } => Ok(
                (
                    m.assign_with_flag(
                        x,
                        ((v[x as int] * 2) % 256) as u8,
                        (v[x as int] / 128) as u8,
                    ),
                    EffectView::Nothing,
                ),
            ),
            OpCode::SkipIfRegistersNotEqual { x, y } => Ok(
                (m.advance(v[x as int] != v[y as int]), EffectView::Nothing),
            ),
            OpCode::SetIndex { nnn } => Ok(
                (MachineState { i: nnn, ..m.advance(false) }, EffectView::Nothing),
            ),
            OpCode::JumpWithOffset { nnn } => Ok(
                (m.with_pc(nnn + v[0]), EffectView::Nothing),
            ),
            OpCode::Random { x, nn } => Ok((m.assign(x, nn & random), EffectView::Nothing)),
            OpCode::Draw { x, y, n } => if !in_memory(m.i, n as int) {
                Err(Chip8Error::MemoryOutOfBounds { address: m.pc, index: m.i })
            } else {
                Ok(
                    (
                        m.advance(false),
                        EffectView::DrawSprite {
                            x: (v[x as int] as u32 % SCREEN_WIDTH) as u8,
                            y: (v[y as int] as u32 % SCREEN_HEIGHT) as u8,
                            sprite: m.ram.subrange(m.i as int, m.i + n),
                        },
                    ),
                )
            },
            OpCode::SkipIfKeyPressed { x } => Ok(
                (m.advance(key_is_pressed(keys, v[x as int])), EffectView::Nothing),
            ),
            OpCode::SkipIfKeyNotPressed { x } => Ok(
                (m.advance(!key_is_pressed(keys, v[x as int])), EffectView::Nothing),
            ),
            OpCode::ReadDelayTimer { x } => Ok((m.assign(x, m.delay_timer), EffectView::Nothing)),
            OpCode::WaitForKey { x } => match first_pressed(keys) {
                Some(k) => Ok(
                    (
                        MachineState { state: RunState::Running, ..m.assign(x, k) },
                        EffectView::Nothing,
                    ),
                ),
                None => Ok(
                    (MachineState { state: RunState::WaitingForKey, ..m }, EffectView::Nothing),
                ),
            },
            OpCode::SetDelayTimer { x } => Ok(
                (MachineState { delay_timer: v[x as int], ..m.advance(false) }, EffectView::Nothing),
            ),
            OpCode::SetSoundTimer { x } => Ok(
                (MachineState { sound_timer: v[x as int], ..m.advance(false) }, EffectView::Nothing),
            ),
            OpCode::AddToIndex { x } => Ok(
                (
                    MachineState { i: ((m.i + v[x as int]) % 65536) as u16, ..m.advance(false) },
                    EffectView::Nothing,
                ),
            ),
            OpCode::SetIndexToGlyph { x } => Ok(
                (
                    MachineState { i: (GLYPH_SIZE * (v[x as int] % 16)) as u16, ..m.advance(false) },
                    EffectView::Nothing,
                ),
            ),
            OpCode::StoreDecimalDigits { x } => if !in_memory(m.i, 3) {
                Err(Chip8Error::MemoryOutOfBounds { address: m.pc, index: m.i })
            } else {
                let value = v[x as int];
                Ok(
                    (
                        MachineState {
                            ram: m.ram.update(m.i as int, value / 100).update(
                                m.i + 1,
                                (value / 10) % 10,
                            ).update(m.i + 2, value % 10),
                            ..m.advance(false)
                        },
                        EffectView::Nothing,
                    ),
                )
            },
            OpCode::StoreRegisters { x } => if !in_memory(m.i, x + 1) {
                Err(Chip8Error::MemoryOutOfBounds { address: m.pc, index: m.i })
            } else {
                Ok(
                    (
                        MachineState {
                            ram: stored_registers(m.ram, v, m.i as int, x as int),
                            ..m.advance(false)
                        },
                        EffectView::Nothing,
                    ),
                )
            },
            OpCode::LoadRegisters { x } => if !in_memory(m.i, x + 1) {
                Err(Chip8Error::MemoryOutOfBounds { address: m.pc, index: m.i })
            } else {
                Ok(
                    (
                        MachineState {
                            v: loaded_registers(v, m.ram, m.i as int, x as int),
                            ..m.advance(false)
                        },
                        EffectView::Nothing,
                    ),
                )
            },
        }
    }
}

/// Decodes `word` and executes it at the program counter of `m`.
pub open spec fn execute_word_spec(m: MachineState, word: u16, keys: u16, random: u8) -> Result<
    (MachineState, EffectView),
    Chip8Error,
> {
    match decode_spec(word) {
        None => Err(Chip8Error::UnknownOpcode { word, address: m.pc }),
        Some(op) => execute_spec(m, op, keys, random),
    }
}

/// Halts a running machine whose program counter did not move.
pub open spec fn detect_self_jump(old_pc: u16, m: MachineState) -> MachineState {
    if m.pc == old_pc && m.state == RunState::Running {
        MachineState { state: RunState::Halted { reason: HaltReason::SelfJump }, ..m }
    } else {
        m
    }
}

/// Decrements each timer that is above zero.
pub open spec fn count_down(m: MachineState) -> MachineState {
    MachineState {
        delay_timer: if m.delay_timer > 0 { (m.delay_timer - 1) as u8 } else { 0u8 },
        sound_timer: if m.sound_timer > 0 { (m.sound_timer - 1) as u8 } else { 0u8 },
        ..m
    }
}

/// One tick of the execution engine: a halted machine stays as it is;
/// otherwise the word at the program counter is fetched, decoded and
/// executed, a machine that made no progress halts, and the timers count
/// down.
pub open spec fn step_spec(m: MachineState, keys: u16, random: u8) -> Result<
    (MachineState, EffectView),
    Chip8Error,
> {
    if m.is_halted() {
        Ok((m, EffectView::Nothing))
    } else if m.pc + 1 >= RAM_SIZE {
        Err(Chip8Error::PcOutOfBounds { address: m.pc })
    } else {
        match execute_word_spec(m, m.fetch(), keys, random) {
            Err(e) => Err(e),
            Ok((next, effect)) => Ok((count_down(detect_self_jump(m.pc, next)), effect)),
        }
    }
}

/// Whether a call that returned `r` and left the machine in `after` did
/// what `expected` says for a machine that was in `before`.
pub open spec fn outcome_is(
    r: Result<Effect, Chip8Error>,
    before: MachineState,
    after: MachineState,
    expected: Result<(MachineState, EffectView), Chip8Error>,
) -> bool {
    match expected {
        Ok((next, effect)) => r matches Ok(e) && e@ == effect && after == next,
        Err(err) => r matches Err(e) && e == err && after == before,
    }
}

/// Relies on rand::random: a byte from the thread-local generator, uniform
/// over all 256 values; nothing about any one value is promised.
#[verifier::external_body]
fn random_byte() -> (r: u8) {
    rand::random::<u8>()
}

/// The machine: memory, registers, index register, call stack, timers,
/// program counter and run state.
pub struct Chip8 {
    ram: Vec<u8>,
    v: Vec<u8>,
    i: u16,
    stack: Vec<u16>,
    delay_timer: u8,
    sound_timer: u8,
    pc: u16,
    state: RunState,
}

impl View for Chip8 {
    type V = MachineState;

    closed spec fn view(&self) -> MachineState {
        MachineState {
            ram: self.ram@,
            v: self.v@,
            i: self.i,
            stack: self.stack@,
            delay_timer: self.delay_timer,
            sound_timer: self.sound_timer,
            pc: self.pc,
            state: self.state,
        }
    }
}

impl Chip8 {
    /// A fresh machine.
    pub fn new() -> (r: Chip8)
        ensures
            r@ == initial_state(),
            r@.wf(),
    {
        let r = Chip8 {
            ram: vec![0u8; RAM_SIZE],
            v: vec![0u8; REGISTER_COUNT],
            i: 0,
            stack: Vec::new(),
            delay_timer: 0,
            sound_timer: 0,
            pc: OFFSET_USABLE_MEM as u16,
            state: RunState::Running,
        };
        assert(r.ram@ =~= initial_state().ram);
        assert(r.v@ =~= initial_state().v);
        assert(r.stack@ =~= initial_state().stack);
        r
    }

    /// Copies a program image into memory from the start of the usable area
    /// on and returns its length; a program larger than the usable area is
    /// refused with the number of bytes that do not fit.
    pub fn read(&mut self, rom: &[u8]) -> (r: Result<usize, Chip8Error>)
        requires
            old(self)@.wf(),
        ensures
            final(self)@.wf(),
            rom@.len() <= MAX_ROM_SIZE ==> r == Ok::<usize, Chip8Error>(rom@.len() as usize)
                && final(self)@ == (MachineState {
                ram: with_rom(old(self)@.ram, rom@),
                ..old(self)@
            }),
            rom@.len() > MAX_ROM_SIZE ==> r == Err::<usize, Chip8Error>(
                Chip8Error::RomTooLarge { overflow: (rom@.len() - MAX_ROM_SIZE) as usize },
            ) && final(self)@ == old(self)@,
    {
        let len = rom.len();
        if len > MAX_ROM_SIZE {
            return Err(Chip8Error::RomTooLarge { overflow: len - MAX_ROM_SIZE });
        }
        let ghost ram0 = self.ram@;
        let mut k: usize = 0;
        while k < len
            invariant
                len == rom@.len(),
                len <= MAX_ROM_SIZE,
                k <= len,
                self.ram@.len() == RAM_SIZE,
                ram0.len() == RAM_SIZE,
                forall|a: int|
                    0 <= a < RAM_SIZE ==> #[trigger] self.ram@[a] == if OFFSET_USABLE_MEM <= a
                        < OFFSET_USABLE_MEM + k {
                        rom@[a - OFFSET_USABLE_MEM]
                    } else {
                        ram0[a]
                    },
                self.v == old(self).v,
                self.i == old(self).i,
                self.stack == old(self).stack,
                self.delay_timer == old(self).delay_timer,
                self.sound_timer == old(self).sound_timer,
                self.pc == old(self).pc,
                self.state == old(self).state,
                ram0 == old(self).ram@,
            decreases len - k,
        {
            self.ram[OFFSET_USABLE_MEM + k] = rom[k];
            k = k + 1;
        }
        assert(self.ram@ =~= with_rom(ram0, rom@));
        Ok(len)
    }

    /// Decodes `opcode` and executes it at the program counter; a word that
    /// matches no known opcode is refused with the address it stands at.
    pub fn execute_opcode(&mut self, opcode: u16, keys: u16, random: u8) -> (r: Result<
        Effect,
        Chip8Error,
    >)
        requires
            old(self)@.wf(),
        ensures
            final(self)@.wf(),
            outcome_is(
                r,
                old(self)@,
                final(self)@,
                execute_word_spec(old(self)@, opcode, keys, random),
            ),
    {
        match OpCode::decode(opcode) {
            Some(op) => self.execute(op, keys, random),
            None => Err(Chip8Error::UnknownOpcode { word: opcode, address: self.pc }),
        }
    }

    /// One tick of the execution engine, given the keypad state `keys` and
    /// the random byte `random` that `CXNN` masks. A halted machine does
    /// nothing. Otherwise the instruction at the program counter executes;
    /// if it left the program counter where it was without waiting for a
    /// key, the machine halts; then both timers count down.
    pub fn step(&mut self, keys: u16, random: u8) -> (r: Result<Effect, Chip8Error>)
        requires
            old(self)@.wf(),
        ensures
            final(self)@.wf(),
            outcome_is(r, old(self)@, final(self)@, step_spec(old(self)@, keys, random)),
    {
        if let RunState::Halted { .. } = self.state {
            return Ok(Effect::Nothing);
        }
        if self.pc as usize + 1 >= RAM_SIZE {
            return Err(Chip8Error::PcOutOfBounds { address: self.pc });
        }
        let old_pc = self.pc;
        let opcode = self.get_opcode();
        let effect = match self.execute_opcode(opcode, keys, random) {
            Ok(effect) => effect,
            Err(e) => {
                return Err(e);
            },
        };
        if self.pc == old_pc && self.state == RunState::Running {
            self.state = RunState::Halted { reason: HaltReason::SelfJump };
        }
        self.timer_countdown();
        Ok(effect)
    }

    /// One tick of the execution engine with a fresh random byte: what
    /// [`Chip8::step`] does for some byte.
    pub fn tick(&mut self, keys: u16) -> (r: Result<Effect, Chip8Error>)
        requires
            old(self)@.wf(),
        ensures
            final(self)@.wf(),
            exists|random: u8|
                outcome_is(r, old(self)@, final(self)@, #[trigger] step_spec(old(self)@, keys, random)),
    {
        let random = random_byte();
        let r = self.step(keys, random);
        assert(outcome_is(r, old(self)@, self@, step_spec(old(self)@, keys, random)));
        r
    }

    /// The big-endian instruction word at the program counter.
    fn get_opcode(&self) -> (r: u16)
        requires
            self@.wf(),
            self.pc + 1 < RAM_SIZE,
        ensures
            r == self@.fetch(),
    {
        let high = self.ram[self.pc as usize] as u16;
        let low = self.ram[self.pc as usize + 1] as u16;
        high * 256 + low
    }

    /// Decrements each timer that is above zero.
    fn timer_countdown(&mut self)
        ensures
            final(self)@ == count_down(old(self)@),
    {
        if self.delay_timer > 0 {
            self.delay_timer = self.delay_timer - 1;
        }
        if self.sound_timer > 0 {
            self.sound_timer = self.sound_timer - 1;
        }
    }

    /// Ticks per second: the full rate while the machine runs, a slow poll
    /// once it has halted.
    pub fn frequency(&self) -> (r: u32)
        ensures
            r == if self@.is_halted() { IDLE_FREQUENCY } else { FREQUENCY },
    {
        if let RunState::Halted { .. } = self.state {
            IDLE_FREQUENCY
        } else {
            FREQUENCY
        }
    }

    /// Length of one tick in nanoseconds at the current frequency.
    pub fn tick_nanos(&self) -> (r: u32)
        ensures
            r == 1_000_000_000u32 / (if self@.is_halted() { IDLE_FREQUENCY } else { FREQUENCY }),
    {
        1_000_000_000u32 / self.frequency()
    }

    /// The program counter.
    pub fn pc(&self) -> (r: u16)
        ensures
            r == self@.pc,
    {
        self.pc
    }

    /// The value of register `Vx`.
    pub fn register(&self, x: u8) -> (r: u8)
        requires
            self@.wf(),
            x < 16,
        ensures
            r == self@.v[x as int],
    {
        self.v[x as usize]
    }

    /// The index register.
    pub fn index(&self) -> (r: u16)
        ensures
            r == self@.i,
    {
        self.i
    }

    /// The memory byte at `address`.
    pub fn memory(&self, address: u16) -> (r: u8)
        requires
            self@.wf(),
            address < RAM_SIZE,
        ensures
            r == self@.ram[address as int],
    {
        self.ram[address as usize]
    }

    /// The number of return addresses on the call stack.
    pub fn stack_depth(&self) -> (r: usize)
        ensures
            r == self@.stack.len(),
    {
        self.stack.len()
    }

    /// The delay timer.
    pub fn delay_timer(&self) -> (r: u8)
        ensures
            r == self@.delay_timer,
    {
        self.delay_timer
    }

    /// The sound timer.
    pub fn sound_timer(&self) -> (r: u8)
        ensures
            r == self@.sound_timer,
    {
        self.sound_timer
    }

    /// Whether the machine runs, waits for a key or has halted.
    pub fn state(&self) -> (r: RunState)
        ensures
            r == self@.state,
    {
        self.state
    }

    /// Whether the machine has halted.
    pub fn is_halted(&self) -> (r: bool)
        ensures
            r == self@.is_halted(),
    {
        if let RunState::Halted { .. } = self.state {
            true
        } else {
            false
        }
    }

    /// Executes one decoded instruction at the program counter, given the
    /// keypad state `keys` and the random byte `random` that `CXNN` masks.
    pub fn execute(&mut self, op: OpCode, keys: u16, random: u8) -> (r: Result<Effect, Chip8Error>)
        requires
            old(self)@.wf(),
            op.wf(),
        ensures
            final(self)@.wf(),
            outcome_is(r, old(self)@, final(self)@, execute_spec(old(self)@, op, keys, random)),
    {
        if self.pc as usize + 1 >= RAM_SIZE {
            return Err(Chip8Error::PcOutOfBounds { address: self.pc });
        }
        match op {
            OpCode::MachineCall { .. }
            | OpCode::ClearScreen
            | OpCode::Return
            | OpCode::Jump { .. }
            | OpCode::Call { .. }
            | OpCode::JumpWithOffset { .. } => self.execute_control(op, keys, random),
            OpCode::SkipIfEqual { .. }
            | OpCode::SkipIfNotEqual { .. }
            | OpCode::SkipIfRegistersEqual { .. }
            | OpCode::SkipIfRegistersNotEqual { .. }
            | OpCode::SkipIfKeyPressed { .. }
            | OpCode::SkipIfKeyNotPressed { .. } => self.execute_skip(op, keys, random),
            OpCode::Load { .. }
            | OpCode::AddImmediate { .. }
            | OpCode::Assign { .. }
            | OpCode::Or { .. }
            | OpCode::And { .. }
            | OpCode::Xor { .. }
            | OpCode::AddWithCarry { .. }
            | OpCode::Subtract { .. }
            | OpCode::ShiftRight { .. }
            | OpCode::ReverseSubtract { .. }
            | OpCode::ShiftLeft { .. }
            | OpCode::Random { .. } => self.execute_register(op, keys, random),
            OpCode::ReadDelayTimer { .. }
            | OpCode::WaitForKey { .. }
            | OpCode::SetDelayTimer { .. }
            | OpCode::SetSoundTimer { .. }
            | OpCode::SetIndex { .. }
            | OpCode::AddToIndex { .. }
            | OpCode::SetIndexToGlyph { .. } => self.execute_timer_index(op, keys, random),
            OpCode::Draw { .. }
            | OpCode::StoreDecimalDigits { .. }
            | OpCode::StoreRegisters { .. }
            | OpCode::LoadRegisters { .. } => self.execute_memory(op, keys, random),
        }
    }

    /// Control flow: shutdown, screen clear, jumps, call and return.
    fn execute_control(&mut self, op: OpCode, keys: u16, random: u8) -> (r: Result<Effect, Chip8Error>)
        requires
            old(self)@.wf(),
            op.wf(),
            old(self).pc + 1 < RAM_SIZE,
            op is MachineCall || op is ClearScreen || op is Return || op is Jump || op is Call || op is JumpWithOffset,
        ensures
            final(self)@.wf(),
            outcome_is(r, old(self)@, final(self)@, execute_spec(old(self)@, op, keys, random)),
    {
        match op {
            OpCode::MachineCall { .. } => {
                self.skip_next_instruction(false);
                self.state = RunState::Halted { reason: HaltReason::Shutdown };
                Ok(Effect::Nothing)
            },
            OpCode::ClearScreen => {
                self.skip_next_instruction(false);
                Ok(Effect::ClearScreen)
            },
            OpCode::Return => {
                match self.stack.pop() {
                    Some(address) => {
                        self.pc = address;
                        Ok(Effect::Nothing)
                    },
                    None => Err(Chip8Error::StackUnderflow { address: self.pc }),
                }
            },
            OpCode::Jump { nnn } => {
                self.pc = nnn;
                Ok(Effect::Nothing)
            },
            OpCode::Call { nnn } => {
                if self.stack.len() >= STACK_SIZE {
                    return Err(Chip8Error::StackOverflow { address: self.pc });
                }
                self.stack.push(self.pc + 2);
                self.pc = nnn;
                Ok(Effect::Nothing)
            },
            OpCode::JumpWithOffset { nnn } => {
                self.pc = nnn + self.v[0] as u16;
                Ok(Effect::Nothing)
            },
            _ => unreached(),
        }
    }

    /// Conditional skips over the next instruction.
    fn execute_skip(&mut self, op: OpCode, keys: u16, random: u8) -> (r: Result<Effect, Chip8Error>)
        requires
            old(self)@.wf(),
            op.wf(),
            old(self).pc + 1 < RAM_SIZE,
            op is SkipIfEqual || op is SkipIfNotEqual || op is SkipIfRegistersEqual || op is SkipIfRegistersNotEqual || op is SkipIfKeyPressed || op is SkipIfKeyNotPressed,
        ensures
            final(self)@.wf(),
            outcome_is(r, old(self)@, final(self)@, execute_spec(old(self)@, op, keys, random)),
    {
        match op {
            OpCode::SkipIfEqual { x, nn } => {
                let skip = self.v[x as usize] == nn;
                self.skip_next_instruction(skip);
                Ok(Effect::Nothing)
            },
            OpCode::SkipIfNotEqual { x, nn } => {
                let skip = self.v[x as usize] != nn;
                self.skip_next_instruction(skip);
                Ok(Effect::Nothing)
            },
            OpCode::SkipIfRegistersEqual { x, y } => {
                let skip = self.v[x as usize] == self.v[y as usize];
                self.skip_next_instruction(skip);
                Ok(Effect::Nothing)
            },
            OpCode::SkipIfRegistersNotEqual { x, y } => {
                let skip = self.v[x as usize] != self.v[y as usize];
                self.skip_next_instruction(skip);
                Ok(Effect::Nothing)
            },
            OpCode::SkipIfKeyPressed { x } => {
                let skip = is_key_pressed(keys, self.v[x as usize]);
                self.skip_next_instruction(skip);
                Ok(Effect::Nothing)
            },
            OpCode::SkipIfKeyNotPressed { x } => {
                let skip = !is_key_pressed(keys, self.v[x as usize]);
                self.skip_next_instruction(skip);
                Ok(Effect::Nothing)
            },
            _ => unreached(),
        }
    }

    /// Register assignments and the arithmetic/logic group.
    fn execute_register(&mut self, op: OpCode, keys: u16, random: u8) -> (r: Result<Effect, Chip8Error>)
        requires
            old(self)@.wf(),
            op.wf(),
            old(self).pc + 1 < RAM_SIZE,
            op is Load || op is AddImmediate || op is Assign || op is Or || op is And || op is Xor || op is AddWithCarry || op is Subtract || op is ShiftRight || op is ReverseSubtract || op is ShiftLeft || op is Random,
        ensures
            final(self)@.wf(),
            outcome_is(r, old(self)@, final(self)@, execute_spec(old(self)@, op, keys, random)),
    {
        match op {
            OpCode::Load { x, nn } => {
                self.set_register(x, nn);
                self.skip_next_instruction(false);
                Ok(Effect::Nothing)
            },
            OpCode::AddImmediate { x, nn } => {
                let sum: u16 = self.v[x as usize] as u16 + nn as u16;
                self.set_register(x, (sum % 256) as u8);
                self.skip_next_instruction(false);
                Ok(Effect::Nothing)
            },
            OpCode::Assign { x, y } => {
                let value = self.v[y as usize];
                self.set_register(x, value);
                self.skip_next_instruction(false);
                Ok(Effect::Nothing)
            },
            OpCode::Or { x, y } => {
                let value = self.v[x as usize] | self.v[y as usize];
                self.set_register(x, value);
                self.skip_next_instruction(false);
                Ok(Effect::Nothing)
            },
            OpCode::And { x, y } => {
                let value = self.v[x as usize] & self.v[y as usize];
                self.set_register(x, value);
                self.skip_next_instruction(false);
                Ok(Effect::Nothing)
            },
            OpCode::Xor { x, y } => {
                let value = self.v[x as usize] ^ self.v[y as usize];
                self.set_register(x, value);
                self.skip_next_instruction(false);
                Ok(Effect::Nothing)
            },
            OpCode::AddWithCarry { x, y } => {
                let sum: u16 = self.v[x as usize] as u16 + self.v[y as usize] as u16;
                let flag: u8 = if sum > 255 { 1 } else { 0 };
                self.set_register(15, flag);
                self.set_register(x, (sum % 256) as u8);
                self.skip_next_instruction(false);
                Ok(Effect::Nothing)
            },
            OpCode::Subtract { x, y } => {
                let vx = self.v[x as usize];
                let vy = self.v[y as usize];
                let flag: u8 = if vx >= vy { 1 } else { 0 };
                let difference: u16 = (256u16 + vx as u16 - vy as u16) % 256;
                self.set_register(15, flag);
                self.set_register(x, difference as u8);
                self.skip_next_instruction(false);
                Ok(Effect::Nothing)
            },
            OpCode::ShiftRight { x } => {
                let vx = self.v[x as usize];
                self.set_register(15, vx % 2);
                self.set_register(x, vx / 2);
                self.skip_next_instruction(false);
                Ok(Effect::Nothing)
            },
            OpCode::ReverseSubtract { x, y } => {
                let vx = self.v[x as usize];
                let vy = self.v[y as usize];
                let flag: u8 = if vy >= vx { 1 } else { 0 };
                let difference: u16 = (256u16 + vy as u16 - vx as u16) % 256;
                self.set_register(15, flag);
                self.set_register(x, difference as u8);
                self.skip_next_instruction(false);
                Ok(Effect::Nothing)
            },
            OpCode::ShiftLeft { x } => {
                let vx = self.v[x as usize];
                let shifted: u16 = (vx as u16 * 2) % 256;
                self.set_register(15, vx / 128);
                self.set_register(x, shifted as u8);
                self.skip_next_instruction(false);
                Ok(Effect::Nothing)
            },
            OpCode::Random { x, nn } => {
                self.set_register(x, nn & random);
                self.skip_next_instruction(false);
                Ok(Effect::Nothing)
            },
            _ => unreached(),
        }
    }

    /// Timers, key wait and the index register.
    fn execute_timer_index(&mut self, op: OpCode, keys: u16, random: u8) -> (r: Result<Effect, Chip8Error>)
        requires
            old(self)@.wf(),
            op.wf(),
            old(self).pc + 1 < RAM_SIZE,
            op is ReadDelayTimer || op is WaitForKey || op is SetDelayTimer || op is SetSoundTimer || op is SetIndex || op is AddToIndex || op is SetIndexToGlyph,
        ensures
            final(self)@.wf(),
            outcome_is(r, old(self)@, final(self)@, execute_spec(old(self)@, op, keys, random)),
    {
        match op {
            OpCode::ReadDelayTimer { x } => {
                self.set_register(x, self.delay_timer);
                self.skip_next_instruction(false);
                Ok(Effect::Nothing)
            },
            OpCode::WaitForKey { x } => {
                match get_pressed_key(keys) {
                    Some(key) => {
                        self.set_register(x, key);
                        self.skip_next_instruction(false);
                        self.state = RunState::Running;
                    },
                    None => {
                        self.state = RunState::WaitingForKey;
                    },
                }
                Ok(Effect::Nothing)
            },
            OpCode::SetDelayTimer { x } => {
                self.delay_timer = self.v[x as usize];
                self.skip_next_instruction(false);
                Ok(Effect::Nothing)
            },
            OpCode::SetSoundTimer { x } => {
                self.sound_timer = self.v[x as usize];
                self.skip_next_instruction(false);
                Ok(Effect::Nothing)
            },
            OpCode::SetIndex { nnn } => {
                self.i = nnn;
                self.skip_next_instruction(false);
                Ok(Effect::Nothing)
            },
            OpCode::AddToIndex { x } => {
                let sum: u32 = self.i as u32 + self.v[x as usize] as u32;
                self.i = (sum % 65536) as u16;
                self.skip_next_instruction(false);
                Ok(Effect::Nothing)
            },
            OpCode::SetIndexToGlyph { x } => {
                self.i = GLYPH_SIZE * (self.v[x as usize] as u16 % 16);
                self.skip_next_instruction(false);
                Ok(Effect::Nothing)
            },
            _ => unreached(),
        }
    }

    /// Instructions that read or write memory from the index register on.
    fn execute_memory(&mut self, op: OpCode, keys: u16, random: u8) -> (r: Result<Effect, Chip8Error>)
        requires
            old(self)@.wf(),
            op.wf(),
            old(self).pc + 1 < RAM_SIZE,
            op is Draw || op is StoreDecimalDigits || op is StoreRegisters || op is LoadRegisters,
        ensures
            final(self)@.wf(),
            outcome_is(r, old(self)@, final(self)@, execute_spec(old(self)@, op, keys, random)),
    {
        match op {
            OpCode::Draw { x, y, n } => {
                if self.i as usize + n as usize > RAM_SIZE {
                    return Err(Chip8Error::MemoryOutOfBounds { address: self.pc, index: self.i });
                }
                let sprite = self.sprite_at(self.i as usize, n as usize);
                let origin_x = (self.v[x as usize] as u32 % SCREEN_WIDTH) as u8;
                let origin_y = (self.v[y as usize] as u32 % SCREEN_HEIGHT) as u8;
                self.skip_next_instruction(false);
                Ok(Effect::DrawSprite { x: origin_x, y: origin_y, sprite })
            },
            OpCode::StoreDecimalDigits { x } => {
                if self.i as usize + 3 > RAM_SIZE {
                    return Err(Chip8Error::MemoryOutOfBounds { address: self.pc, index: self.i });
                }
                let value = self.v[x as usize];
                let start = self.i as usize;
                self.ram[start] = value / 100;
                self.ram[start + 1] = (value / 10) % 10;
                self.ram[start + 2] = value % 10;
                self.skip_next_instruction(false);
                Ok(Effect::Nothing)
            },
            OpCode::StoreRegisters { x } => {
                if self.i as usize + x as usize + 1 > RAM_SIZE {
                    return Err(Chip8Error::MemoryOutOfBounds { address: self.pc, index: self.i });
                }
                self.store_registers(x);
                self.skip_next_instruction(false);
                Ok(Effect::Nothing)
            },
            OpCode::LoadRegisters { x } => {
                if self.i as usize + x as usize + 1 > RAM_SIZE {
                    return Err(Chip8Error::MemoryOutOfBounds { address: self.pc, index: self.i });
                }
                self.load_registers(x);
                self.skip_next_instruction(false);
                Ok(Effect::Nothing)
            },
            _ => unreached(),
        }
    }

    fn set_register(&mut self, x: u8, value: u8)
        requires
            old(self)@.wf(),
            x < 16,
        ensures
            final(self)@ == old(self)@.with_register(x, value),
    {
        self.v[x as usize] = value;
    }

    /// Moves the program counter to the next instruction, or over it.
    fn skip_next_instruction(&mut self, skip: bool)
        requires
            old(self).pc + 1 < RAM_SIZE,
        ensures
            final(self)@ == old(self)@.advance(skip),
    {
        if skip {
            self.pc = self.pc + 4;
        } else {
            self.pc = self.pc + 2;
        }
    }

    /// The `count` bytes of memory from `start` on.
    fn sprite_at(&self, start: usize, count: usize) -> (r: Vec<u8>)
        requires
            self@.wf(),
            start + count <= RAM_SIZE,
        ensures
            r@ == self@.ram.subrange(start as int, start + count),
    {
        let mut sprite: Vec<u8> = Vec::new();
        let mut k: usize = 0;
        while k < count
            invariant
                self@.wf(),
                start + count <= RAM_SIZE,
                k <= count,
                sprite@ == self@.ram.subrange(start as int, start + k),
            decreases count - k,
        {
            sprite.push(self.ram[start + k]);
            k = k + 1;
            assert(sprite@ =~= self@.ram.subrange(start as int, start + k));
        }
        sprite
    }

    /// Stores `V0..=Vx` to memory from the index register on.
    fn store_registers(&mut self, x: u8)
        requires
            old(self)@.wf(),
            x < 16,
            in_memory(old(self).i, x + 1),
        ensures
            final(self)@ == (MachineState {
                ram: stored_registers(old(self)@.ram, old(self)@.v, old(self).i as int, x as int),
                ..old(self)@
            }),
    {
        let start = self.i as usize;
        let mut k: usize = 0;
        while k <= x as usize
            invariant
                x < 16,
                start == old(self).i,
                start + x + 1 <= RAM_SIZE,
                k <= x + 1,
                self.ram@ == stored_registers(old(self).ram@, old(self).v@, start as int, k - 1),
                self.v == old(self).v,
                self.v@.len() == REGISTER_COUNT,
                self.i == old(self).i,
                self.stack == old(self).stack,
                self.delay_timer == old(self).delay_timer,
                self.sound_timer == old(self).sound_timer,
                self.pc == old(self).pc,
                self.state == old(self).state,
                old(self).ram@.len() == RAM_SIZE,
            decreases x + 1 - k,
        {
            let value = self.v[k];
            self.ram[start + k] = value;
            k = k + 1;
            assert(self.ram@ =~= stored_registers(
                old(self).ram@,
                old(self).v@,
                start as int,
                k - 1,
            ));
        }
    }

    /// Loads `V0..=Vx` from memory from the index register on.
    fn load_registers(&mut self, x: u8)
        requires
            old(self)@.wf(),
            x < 16,
            in_memory(old(self).i, x + 1),
        ensures
            final(self)@ == (MachineState {
                v: loaded_registers(old(self)@.v, old(self)@.ram, old(self).i as int, x as int),
                ..old(self)@
            }),
    {
        let start = self.i as usize;
        let mut k: usize = 0;
        while k <= x as usize
            invariant
                x < 16,
                start == old(self).i,
                start + x + 1 <= RAM_SIZE,
                k <= x + 1,
                self.v@ == loaded_registers(old(self).v@, old(self).ram@, start as int, k - 1),
                self.ram == old(self).ram,
                self.ram@.len() == RAM_SIZE,
                self.i == old(self).i,
                self.stack == old(self).stack,
                self.delay_timer == old(self).delay_timer,
                self.sound_timer == old(self).sound_timer,
                self.pc == old(self).pc,
                self.state == old(self).state,
                old(self).v@.len() == REGISTER_COUNT,
            decreases x + 1 - k,
        {
            let value = self.ram[start + k];
            self.v[k] = value;
            k = k + 1;
            assert(self.v@ =~= loaded_registers(
                old(self).v@,
                old(self).ram@,
                start as int,
                k - 1,
            ));
        }
    }
}

} // verus!
