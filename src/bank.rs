//! The instruction bank: how many more of each kind of instruction a player
//! may place into programs.

use vstd::prelude::*;
use crate::instructions::Instruction;

verus! {

/// How many more instructions of one kind may be placed.
#[derive(Clone, Copy, Debug, PartialEq, Eq, Structural)]
pub enum InstructionQuantity {
    Value(u32),
    Infinite,
}

/// The kind of an instruction, without whatever it nests.
#[derive(Clone, Copy, Debug, PartialEq, Eq, Structural)]
pub enum InstructionShape {
    Walk,
    TurnRight,
    TurnLeft,
    If,
}

/// The kind of an instruction.
pub open spec fn shape_of(i: Instruction) -> InstructionShape {
    match i {
        Instruction::Walk => InstructionShape::Walk,
        Instruction::TurnRight => InstructionShape::TurnRight,
        Instruction::TurnLeft => InstructionShape::TurnLeft,
        Instruction::If { .. } => InstructionShape::If,
    }
}

/// The key under which a kind is stored in the bank's table.
pub open spec fn shape_key(s: InstructionShape) -> u8 {
    match s {
        InstructionShape::Walk => 0,
        InstructionShape::TurnRight => 1,
        InstructionShape::TurnLeft => 2,
        InstructionShape::If => 3,
    }
}

/// Whether a quantity still allows one more placement.
pub open spec fn allows_placement(q: InstructionQuantity) -> bool {
    match q {
        InstructionQuantity::Value(n) => n > 0,
        InstructionQuantity::Infinite => true,
    }
}

impl Instruction {
    /// The kind of this instruction.
    pub fn shape(&self) -> (s: InstructionShape)
        ensures
            s == shape_of(*self),
    {
        match self {
            Instruction::Walk => InstructionShape::Walk,
            Instruction::TurnRight => InstructionShape::TurnRight,
            Instruction::TurnLeft => InstructionShape::TurnLeft,
            Instruction::If { .. } => InstructionShape::If,
        }
    }
}

fn key_of(s: InstructionShape) -> (k: u8)
    ensures
        k == shape_key(s),
{
    match s {
        InstructionShape::Walk => 0,
        InstructionShape::TurnRight => 1,
        InstructionShape::TurnLeft => 2,
        InstructionShape::If => 3,
    }
}

/// A hash table from kind keys to quantities.
#[verifier::external_body]
pub struct QuantityTable {
    table: bevy::utils::HashMap<u8, InstructionQuantity>,
}

/// What the table holds.
pub uninterp spec fn table_entries(t: QuantityTable) -> Map<u8, InstructionQuantity>;

/// Relies on `Default` for hashbrown's `HashMap` (bevy's `HashMap`): a new map is empty.
#[verifier::external_body]
fn table_new() -> (t: QuantityTable)
    ensures
        table_entries(t).dom().is_empty(),
{
    QuantityTable { table: bevy::utils::HashMap::default() }
}

/// Relies on hashbrown's `HashMap::insert`: afterwards the key maps to the
/// value and every other key keeps its entry.
#[verifier::external_body]
fn table_insert(t: &mut QuantityTable, k: u8, v: InstructionQuantity)
    ensures
        table_entries(*final(t)) == table_entries(*old(t)).insert(k, v),
{
    t.table.insert(k, v);
}

/// Relies on hashbrown's `HashMap::get`: the value stored under the key, if any.
#[verifier::external_body]
fn table_get(t: &QuantityTable, k: u8) -> (r: Option<InstructionQuantity>)
    ensures
        table_entries(*t).contains_key(k) ==> r == Some(table_entries(*t)[k]),
        !table_entries(*t).contains_key(k) ==> r.is_none(),
{
    t.table.get(&k).copied()
}

/// How many of each kind of instruction remain to be placed. Kinds that are
/// not in the bank cannot be placed at all.
///
/// Running a program never touches the bank: only authoring consumes it.
pub struct InstructionBank {
    instructions: QuantityTable,
}

impl InstructionBank {
    /// The quantity recorded for a kind, if the bank has it.
    pub closed spec fn quantity(&self, s: InstructionShape) -> Option<InstructionQuantity> {
        let m = table_entries(self.instructions);
        if m.contains_key(shape_key(s)) {
            Some(m[shape_key(s)])
        } else {
            None
        }
    }

    /// A bank that holds no kind of instruction.
    pub fn new() -> (b: InstructionBank)
        ensures
            forall|s: InstructionShape| #[trigger] b.quantity(s).is_none(),
    {
        InstructionBank { instructions: table_new() }
    }

    /// Records `q` as the quantity of kind `s`; other kinds keep theirs.
    pub fn set_quantity(&mut self, s: InstructionShape, q: InstructionQuantity)
        ensures
            final(self).quantity(s) == Some(q),
            forall|o: InstructionShape|
                o != s ==> #[trigger] final(self).quantity(o) == old(self).quantity(o),
    {
        table_insert(&mut self.instructions, key_of(s), q);
        assert forall|o: InstructionShape| o != s implies #[trigger] self.quantity(o)
            == old(self).quantity(o) by {
            assert(shape_key(o) != shape_key(s));
        }
    }

    /// The quantity recorded for kind `s`, or `None` if the bank lacks it.
    pub fn quantity_of(&self, s: InstructionShape) -> (q: Option<InstructionQuantity>)
        ensures
            q == self.quantity(s),
    {
        table_get(&self.instructions, key_of(s))
    }

    /// Whether one more instruction like `i` may be placed: its kind is in
    /// the bank with a quantity that is unlimited or above zero.
    pub fn can_place(&self, i: &Instruction) -> (b: bool)
        ensures
            b == (self.quantity(shape_of(*i)) matches Some(q) && allows_placement(q)),
    {
        match self.quantity_of(i.shape()) {
            Some(InstructionQuantity::Value(n)) => n > 0,
            Some(InstructionQuantity::Infinite) => true,
            None => false,
        }
    }
}

} // verus!
