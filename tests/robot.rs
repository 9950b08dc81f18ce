use robot_grid::bank::{InstructionBank, InstructionQuantity, InstructionShape};
use robot_grid::grid::{Coords, GridPosition, GridRotation, Rotation};
use robot_grid::instructions::{flatten_program, Condition, Instruction, Op};
use robot_grid::robot::Robot;

fn start() -> (GridPosition, GridRotation) {
    (GridPosition { coords: Coords { x: 0, y: 0 } }, GridRotation { rotation: Rotation::North })
}

#[test]
fn turn_walk_turn_scenario() {
    let mut robot = Robot::new(vec![Instruction::TurnRight, Instruction::Walk, Instruction::TurnLeft]);
    let (mut pos, mut rot) = start();
    robot.exec_instruction(&mut pos, &mut rot);
    assert_eq!(rot.rotation, Rotation::West);
    assert_eq!(pos.coords, Coords { x: 0, y: 0 });
    robot.exec_instruction(&mut pos, &mut rot);
    assert_eq!(rot.rotation, Rotation::West);
    assert_eq!(pos.coords, Coords { x: 1, y: 0 });
    robot.exec_instruction(&mut pos, &mut rot);
    assert_eq!(rot.rotation, Rotation::North);
    assert_eq!(pos.coords, Coords { x: 1, y: 0 });
}

#[test]
fn default_robot_runs_turn_walk_turn() {
    let robot = Robot::default();
    assert_eq!(
        robot.instructions(),
        &vec![Instruction::TurnRight, Instruction::Walk, Instruction::TurnLeft]
    );
    assert_eq!(robot.index(), 0);
}

#[test]
fn empty_conditional_never_moves() {
    let mut robot = Robot::new(vec![Instruction::If { condition: Condition::True, instructions: vec![] }]);
    let (mut pos, mut rot) = start();
    for _ in 0..10 {
        robot.exec_instruction(&mut pos, &mut rot);
        assert_eq!(pos.coords, Coords { x: 0, y: 0 });
        assert_eq!(rot.rotation, Rotation::North);
        assert_eq!(robot.index(), 0);
    }
}

#[test]
fn two_instruction_program_wraps() {
    let mut robot = Robot::new(vec![Instruction::Walk, Instruction::TurnLeft]);
    let (mut pos, mut rot) = start();
    for n in 0..7usize {
        assert_eq!(robot.index(), n % 2);
        robot.exec_instruction(&mut pos, &mut rot);
    }
    // Walk, left, walk, left, walk, left, walk.
    assert_eq!(pos.coords, Coords { x: 0, y: 0 });
    assert_eq!(rot.rotation, Rotation::West);
}

#[test]
fn empty_program_is_a_no_op() {
    let mut robot = Robot::new(vec![]);
    let (mut pos, mut rot) = start();
    robot.exec_instruction(&mut pos, &mut rot);
    assert_eq!(pos.coords, Coords { x: 0, y: 0 });
    assert_eq!(rot.rotation, Rotation::North);
    assert_eq!(robot.index(), 0);
}

#[test]
fn conditional_body_resumes_across_ticks() {
    let program = vec![
        Instruction::If {
            condition: Condition::True,
            instructions: vec![Instruction::Walk, Instruction::TurnLeft, Instruction::Walk],
        },
        Instruction::TurnRight,
    ];
    let mut robot = Robot::new(program);
    let (mut pos, mut rot) = start();
    // Entering the block runs its first instruction in the same tick.
    robot.exec_instruction(&mut pos, &mut rot);
    assert_eq!(pos.coords, Coords { x: 0, y: 1 });
    assert_eq!(robot.index(), 2);
    robot.exec_instruction(&mut pos, &mut rot);
    assert_eq!(rot.rotation, Rotation::East);
    robot.exec_instruction(&mut pos, &mut rot);
    assert_eq!(pos.coords, Coords { x: -1, y: 1 });
    robot.exec_instruction(&mut pos, &mut rot);
    assert_eq!(rot.rotation, Rotation::North);
    assert_eq!(robot.index(), 0);
    robot.exec_instruction(&mut pos, &mut rot);
    assert_eq!(pos.coords, Coords { x: -1, y: 2 });
}

#[test]
fn nested_conditionals() {
    let program = vec![Instruction::If {
        condition: Condition::True,
        instructions: vec![
            Instruction::If { condition: Condition::True, instructions: vec![] },
            Instruction::If { condition: Condition::True, instructions: vec![Instruction::Walk] },
        ],
    }];
    let code = flatten_program(&program);
    assert_eq!(
        code,
        vec![
            Op::Enter { condition: Condition::True, end: 4 },
            Op::Enter { condition: Condition::True, end: 2 },
            Op::Enter { condition: Condition::True, end: 4 },
            Op::Walk,
        ]
    );
    let mut robot = Robot::new(program);
    let (mut pos, mut rot) = start();
    // The empty inner block uses up the first tick.
    robot.exec_instruction(&mut pos, &mut rot);
    assert_eq!(pos.coords, Coords { x: 0, y: 0 });
    assert_eq!(robot.index(), 2);
    robot.exec_instruction(&mut pos, &mut rot);
    assert_eq!(pos.coords, Coords { x: 0, y: 1 });
    assert_eq!(robot.index(), 0);
}

#[test]
fn flatten_marks_block_ends() {
    let program = vec![
        Instruction::Walk,
        Instruction::If { condition: Condition::True, instructions: vec![Instruction::TurnLeft] },
        Instruction::TurnRight,
    ];
    assert_eq!(
        flatten_program(&program),
        vec![
            Op::Walk,
            Op::Enter { condition: Condition::True, end: 3 },
            Op::TurnLeft,
            Op::TurnRight
        ]
    );
}

#[test]
fn set_instructions_restarts() {
    let mut robot = Robot::new(vec![Instruction::Walk, Instruction::Walk]);
    let (mut pos, mut rot) = start();
    robot.exec_instruction(&mut pos, &mut rot);
    assert_eq!(robot.index(), 1);
    robot.set_instructions(vec![Instruction::TurnLeft]);
    assert_eq!(robot.index(), 0);
    assert_eq!(robot.instructions(), &vec![Instruction::TurnLeft]);
    robot.exec_instruction(&mut pos, &mut rot);
    assert_eq!(rot.rotation, Rotation::East);
}

#[test]
fn running_a_program_leaves_the_bank_alone() {
    let mut bank = InstructionBank::new();
    bank.set_quantity(InstructionShape::Walk, InstructionQuantity::Value(2));
    bank.set_quantity(InstructionShape::TurnLeft, InstructionQuantity::Infinite);
    let mut robot = Robot::new(vec![Instruction::Walk, Instruction::TurnLeft, Instruction::Walk]);
    let (mut pos, mut rot) = start();
    for _ in 0..6 {
        robot.exec_instruction(&mut pos, &mut rot);
    }
    assert_eq!(bank.quantity_of(InstructionShape::Walk), Some(InstructionQuantity::Value(2)));
    assert_eq!(bank.quantity_of(InstructionShape::TurnLeft), Some(InstructionQuantity::Infinite));
    assert_eq!(bank.quantity_of(InstructionShape::TurnRight), None);
}
