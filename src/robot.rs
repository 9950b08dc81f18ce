//! The interpreter: a robot's program, its cursor, and the tick that runs one
//! instruction's worth of the program against the robot's logical state.

use vstd::prelude::*;
use crate::grid::{
    Coords, GridPosition, GridRotation, Rotation, ahead_of, can_step, left_of, right_of, step_from,
};
use crate::instructions::{Condition, Instruction, Op, flatten, flatten_program};

verus! {

/// Whether a condition holds for a robot at `c` facing `r`.
pub open spec fn holds(cond: Condition, c: Coords, r: Rotation) -> bool {
    match cond {
        Condition::True => true,
    }
}

/// Evaluates a condition against the robot's logical state.
pub fn evaluate(cond: Condition, position: &GridPosition, rotation: &GridRotation) -> (b: bool)
    ensures
        b == holds(cond, position.coords, rotation.rotation),
{
    match cond {
        Condition::True => true,
    }
}

/// The coordinates after walking one cell from `c` facing `r`.
pub open spec fn walked(c: Coords, r: Rotation) -> Coords {
    Coords { x: ahead_of(c, r).0 as i32, y: ahead_of(c, r).1 as i32 }
}

/// Runs the flattened program `code` from entry `pc` until one instruction's
/// worth of work is done, and gives the entry reached (possibly one past the
/// end) with the new coordinates and facing.
///
/// A primitive runs and moves on to the next entry. A block whose condition
/// fails is skipped whole; a block with an empty body is stepped over; both
/// use up the tick. A block whose condition holds is entered, and the tick
/// goes on with the first entry of its body. Past the end nothing happens.
pub open spec fn settle(code: Seq<Op>, pc: int, c: Coords, r: Rotation) -> (int, Coords, Rotation)
    decreases code.len() - pc,
{
    if pc < 0 || pc >= code.len() {
        (pc, c, r)
    } else {
        match code[pc] {
            Op::Walk => (pc + 1, walked(c, r), r),
            Op::TurnRight => (pc + 1, c, right_of(r)),
            Op::TurnLeft => (pc + 1, c, left_of(r)),
            Op::Enter { condition, end } => {
                if !holds(condition, c, r) {
                    (end as int, c, r)
                } else if end == pc + 1 {
                    (pc + 1, c, r)
                } else {
                    settle(code, pc + 1, c, r)
                }
            },
        }
    }
}

/// One execution tick: `settle`, then the cursor wraps to the start of the
/// program once it has run past the end.
pub open spec fn tick(code: Seq<Op>, pc: int, c: Coords, r: Rotation) -> (int, Coords, Rotation) {
    let s = settle(code, pc, c, r);
    if s.0 >= code.len() {
        (0, s.1, s.2)
    } else {
        s
    }
}

/// The state reached after `n` ticks.
pub open spec fn run(code: Seq<Op>, pc: int, c: Coords, r: Rotation, n: nat) -> (int, Coords, Rotation)
    decreases n,
{
    if n == 0 {
        (pc, c, r)
    } else {
        let s = tick(code, pc, c, r);
        run(code, s.0, s.1, s.2, (n - 1) as nat)
    }
}

/// A robot's program and the cursor that says what runs on the next tick.
///
/// The cursor is an index into the flattened program, so it keeps its place
/// inside nested conditional blocks from one tick to the next.
#[derive(Debug)]
pub struct Robot {
    instructions: Vec<Instruction>,
    code: Vec<Op>,
    index: usize,
}

impl Robot {
    /// The program the robot runs.
    pub closed spec fn program(&self) -> Seq<Instruction> {
        self.instructions@
    }

    /// The entry of the flattened program that runs on the next tick.
    pub closed spec fn cursor(&self) -> int {
        self.index as int
    }

    /// The flattened program matches the program, and the cursor points at
    /// one of its entries (or is zero for an empty program).
    pub closed spec fn wf(&self) -> bool {
        &&& self.code@ == flatten(self.instructions@)
        &&& (self.index < self.code@.len() || self.index == 0)
    }

    /// A robot that will run `instructions` from the start.
    pub fn new(instructions: Vec<Instruction>) -> (r: Robot)
        ensures
            r.wf(),
            r.program() == instructions@,
            r.cursor() == 0,
    {
        let code = flatten_program(&instructions);
        Robot { instructions, code, index: 0 }
    }

    /// The program the robot runs.
    pub fn instructions(&self) -> (r: &Vec<Instruction>)
        ensures
            r@ == self.program(),
    {
        &self.instructions
    }

    /// The entry of the flattened program that runs on the next tick.
    pub fn index(&self) -> (i: usize)
        ensures
            i == self.cursor(),
    {
        self.index
    }

    /// Replaces the program; the next tick runs its first instruction.
    pub fn set_instructions(&mut self, instructions: Vec<Instruction>)
        ensures
            final(self).wf(),
            final(self).program() == instructions@,
            final(self).cursor() == 0,
    {
        self.code = flatten_program(&instructions);
        self.instructions = instructions;
        self.index = 0;
    }

    /// Runs one tick of the program against the robot's logical position and
    /// facing, and moves the cursor on, back to the start after the last
    /// instruction.
    pub fn exec_instruction(&mut self, position: &mut GridPosition, rotation: &mut GridRotation)
        requires
            old(self).wf(),
            can_step(old(position).coords),
        ensures
            final(self).wf(),
            final(self).program() == old(self).program(),
            (final(self).cursor(), final(position).coords, final(rotation).rotation) == tick(
                flatten(old(self).program()),
                old(self).cursor(),
                old(position).coords,
                old(rotation).rotation,
            ),
    {
        let ghost c0 = position.coords;
        let ghost r0 = rotation.rotation;
        let ghost target = settle(self.code@, self.index as int, c0, r0);
        let len = self.code.len();
        let mut pc = self.index;
        let mut done = false;
        while pc < len && !done
            invariant
                len == self.code@.len(),
                self.wf(),
                can_step(c0),
                done ==> (pc as int, position.coords, rotation.rotation) == target,
                !done ==> settle(self.code@, pc as int, c0, r0) == target,
                !done ==> position.coords == c0 && rotation.rotation == r0,
            decreases (if done { 0 } else { len - pc + 1 }),
        {
            match self.code[pc] {
                Op::Walk => {
                    position.coords = step_from(position.coords, rotation.rotation);
                    pc = pc + 1;
                    done = true;
                },
                Op::TurnRight => {
                    rotation.rotation = rotation.rotation.turned_right();
                    pc = pc + 1;
                    done = true;
                },
                Op::TurnLeft => {
                    rotation.rotation = rotation.rotation.turned_left();
                    pc = pc + 1;
                    done = true;
                },
                Op::Enter { condition, end } => {
                    if !evaluate(condition, position, rotation) {
                        pc = end;
                        done = true;
                    } else if end == pc + 1 {
                        pc = pc + 1;
                        done = true;
                    } else {
                        pc = pc + 1;
                    }
                },
            }
        }
        if pc >= len {
            pc = 0;
        }
        self.index = pc;
    }
}

impl Default for Robot {
    /// A robot whose program turns right, walks, and turns left.
    fn default() -> (r: Self)
        ensures
            r.wf(),
            r.program() == seq![Instruction::TurnRight, Instruction::Walk, Instruction::TurnLeft],
            r.cursor() == 0,
    {
        let r = Robot::new(vec![Instruction::TurnRight, Instruction::Walk, Instruction::TurnLeft]);
        assert(r.program() =~= seq![Instruction::TurnRight, Instruction::Walk, Instruction::TurnLeft]);
        r
    }
}

/// The flattened form of a program of two instructions, neither of them a
/// conditional block, has exactly two entries.
proof fn lemma_flatten_two(a: Instruction, b: Instruction)
    requires
        !(a is If),
        !(b is If),
    ensures
        flatten(seq![a, b]).len() == 2,
        !(flatten(seq![a, b])[0] is Enter),
        !(flatten(seq![a, b])[1] is Enter),
{
    assert(seq![a, b].drop_last() =~= seq![a]);
    assert(seq![a].drop_last() =~= Seq::<Instruction>::empty());
    reveal_with_fuel(crate::instructions::flat_seq, 3);
}

/// With the cursor on either entry of a two-entry program of primitives, the
/// cursor after `n` ticks is `(pc + n) % 2`.
proof fn lemma_two_entry_cursor(code: Seq<Op>, pc: int, c: Coords, r: Rotation, n: nat)
    requires
        code.len() == 2,
        !(code[0] is Enter),
        !(code[1] is Enter),
        0 <= pc < 2,
    ensures
        run(code, pc, c, r, n).0 == (pc + n) % 2,
    decreases n,
{
    if n > 0 {
        let s = tick(code, pc, c, r);
        assert(s.0 == (pc + 1) % 2);
        lemma_two_entry_cursor(code, s.0, s.1, s.2, (n - 1) as nat);
    }
}

/// A program of two instructions (neither a conditional block), run from its
/// start, wraps around: before tick `n` (counting from zero) the cursor is on
/// instruction `n % 2`.
pub proof fn lemma_two_instruction_wrap(a: Instruction, b: Instruction, c: Coords, r: Rotation, n: nat)
    requires
        !(a is If),
        !(b is If),
    ensures
        flatten(seq![a, b]).len() == 2,
        run(flatten(seq![a, b]), 0, c, r, n).0 == n % 2,
{
    lemma_flatten_two(a, b);
    lemma_two_entry_cursor(flatten(seq![a, b]), 0, c, r, n);
}

/// A program made only of a conditional block that always holds and has an
/// empty body never changes the robot's position or facing, however many
/// ticks it runs, and its cursor stays at the start.
pub proof fn lemma_empty_conditional_is_noop(ins: Instruction, c: Coords, r: Rotation, n: nat)
    requires
        ins matches Instruction::If { condition, instructions } && condition == Condition::True
            && instructions@.len() == 0,
    ensures
        run(flatten(seq![ins]), 0, c, r, n) == (0int, c, r),
    decreases n,
{
    let code = flatten(seq![ins]);
    assert(seq![ins].drop_last() =~= Seq::<Instruction>::empty());
    reveal_with_fuel(crate::instructions::flat_seq, 2);
    reveal_with_fuel(crate::instructions::flat_one, 2);
    let body = ins->instructions@;
    assert(crate::instructions::flat_seq(body, 1) =~= Seq::<Op>::empty());
    assert(crate::instructions::flat_one(ins, 0) =~= seq![Op::Enter { condition: Condition::True, end: 1 }]);
    assert(code =~= seq![Op::Enter { condition: Condition::True, end: 1 }]);
    if n > 0 {
        assert(tick(code, 0, c, r) == (0int, c, r));
        lemma_empty_conditional_is_noop(ins, c, r, (n - 1) as nat);
    }
}

} // verus!
