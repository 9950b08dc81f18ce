//! The instruction tree that players author, and its flattened form that the
//! interpreter walks with a single cursor.

use vstd::prelude::*;

verus! {

/// A test on the robot's surroundings that guards a conditional block.
#[derive(Clone, Copy, Debug, PartialEq, Eq, Hash, Structural)]
pub enum Condition {
    /// Always holds.
    True,
}

/// One instruction of a robot's program.
#[derive(Debug, PartialEq, Eq, Hash)]
pub enum Instruction {
    /// Advance one cell in the facing direction.
    Walk,
    /// Turn a quarter to the right.
    TurnRight,
    /// Turn a quarter to the left.
    TurnLeft,
    /// Run the nested block while the condition holds on entry.
    If { condition: Condition, instructions: Vec<Instruction> },
}

/// One entry of a flattened program.
///
/// `Enter` opens a conditional block whose body occupies the entries that
/// follow it, up to but not including the entry at `end`.
#[derive(Clone, Copy, Debug, PartialEq, Eq, Structural)]
pub enum Op {
    Walk,
    TurnRight,
    TurnLeft,
    Enter { condition: Condition, end: usize },
}

/// The flattened form of a single instruction whose first entry lands at
/// index `base` of the whole program.
pub open spec fn flat_one(i: Instruction, base: int) -> Seq<Op>
    decreases i,
{
    match i {
        Instruction::Walk => seq![Op::Walk],
        Instruction::TurnRight => seq![Op::TurnRight],
        Instruction::TurnLeft => seq![Op::TurnLeft],
        Instruction::If { condition, instructions } => {
            let body = flat_seq(instructions@, base + 1);
            seq![Op::Enter { condition, end: (base + 1 + body.len()) as usize }] + body
        },
    }
}

/// The flattened form of a sequence of instructions whose first entry lands
/// at index `base` of the whole program: each instruction's entries in turn.
pub open spec fn flat_seq(s: Seq<Instruction>, base: int) -> Seq<Op>
    decreases s,
{
    if s.len() == 0 {
        seq![]
    } else {
        let front = flat_seq(s.drop_last(), base);
        front + flat_one(s.last(), base + front.len())
    }
}

/// The flattened form of a whole program.
pub open spec fn flatten(s: Seq<Instruction>) -> Seq<Op> {
    flat_seq(s, 0)
}

fn push_instruction(ins: &Instruction, out: &mut Vec<Op>)
    ensures
        final(out)@ == old(out)@ + flat_one(*ins, old(out)@.len() as int),
    decreases ins,
{
    match ins {
        Instruction::Walk => out.push(Op::Walk),
        Instruction::TurnRight => out.push(Op::TurnRight),
        Instruction::TurnLeft => out.push(Op::TurnLeft),
        Instruction::If { condition, instructions } => {
            let ghost before = out@;
            let at = out.len();
            out.push(Op::Enter { condition: *condition, end: 0 });
            push_sequence(instructions, out);
            let end = out.len();
            out.set(at, Op::Enter { condition: *condition, end });
            let ghost body = flat_seq(instructions@, at + 1);
            assert(out@ =~= before + (seq![Op::Enter { condition: *condition, end }] + body));
        },
    }
}

fn push_sequence(instrs: &Vec<Instruction>, out: &mut Vec<Op>)
    ensures
        final(out)@ == old(out)@ + flat_seq(instrs@, old(out)@.len() as int),
    decreases instrs,
{
    let ghost start = out@;
    let ghost base = out@.len() as int;
    let mut i: usize = 0;
    while i < instrs.len()
        invariant
            0 <= i <= instrs.len(),
            out@ == start + flat_seq(instrs@.subrange(0, i as int), base),
            base == start.len(),
        decreases instrs.len() - i,
    {
        let ghost prefix = instrs@.subrange(0, i as int);
        let ghost next = instrs@.subrange(0, i as int + 1);
        assert(next.drop_last() =~= prefix);
        assert(next.last() == instrs@[i as int]);
        push_instruction(&instrs[i], out);
        assert(out@ =~= start + flat_seq(next, base));
        i += 1;
    }
    assert(instrs@.subrange(0, instrs.len() as int) =~= instrs@);
}

/// Flattens a program: each conditional block becomes an `Enter` entry that
/// records where its body ends, followed by the entries of its body.
pub fn flatten_program(instrs: &Vec<Instruction>) -> (code: Vec<Op>)
    ensures
        code@ == flatten(instrs@),
{
    let mut code: Vec<Op> = Vec::new();
    push_sequence(instrs, &mut code);
    assert(code@ =~= flatten(instrs@));
    code
}

} // verus!
