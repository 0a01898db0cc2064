use std::cell::Cell;
use std::collections::VecDeque;

use turing::{Dir, Table, Tape, Turing};
use turing::Dir::{Left, Right, Stay};

fn tape(s: &str) -> Tape<char> {
    Tape::new(s.chars().collect::<VecDeque<char>>())
}

fn text(t: &Tape<char>) -> String {
    t.cells().into_iter().collect()
}

fn copy_machine() -> Turing<Tape<char>, i32> {
    let rules: Vec<(i32, char, Dir, char, i32)> = vec![
        (0, '_', Right, '_', 1),
        (1, 'a', Right, 'A', 2),
        (1, 'b', Right, 'B', 4),
        (1, '_', Left, '_', 8),
        (2, 'a', Right, 'a', 2),
        (2, 'b', Right, 'b', 2),
        (2, '_', Right, '_', 3),
        (3, 'a', Right, 'a', 3),
        (3, 'b', Right, 'b', 3),
        (3, '_', Left, 'a', 6),
        (4, 'a', Right, 'a', 4),
        (4, 'b', Right, 'b', 4),
        (4, '_', Right, '_', 5),
        (5, 'a', Right, 'a', 5),
        (5, 'b', Right, 'b', 5),
        (5, '_', Left, 'b', 6),
        (6, 'a', Left, 'a', 6),
        (6, 'b', Left, 'b', 6),
        (6, '_', Left, '_', 7),
        (7, 'a', Left, 'a', 7),
        (7, 'b', Left, 'b', 7),
        (7, 'A', Right, 'A', 1),
        (7, 'B', Right, 'B', 1),
        (8, 'A', Left, 'a', 8),
        (8, 'B', Left, 'b', 8),
        (8, '_', Stay, '_', 9),
    ];
    let mut table = Table::new();
    for (mem, sym, dir, new_sym, next) in rules {
        table.insert((sym, mem), (dir, new_sym, next));
    }
    Turing::new(table, '_', 0, 9)
}

const START: u8 = 0;
const BUMP: u8 = 1;
const RESET: u8 = 2;
const DONE: u8 = 3;

fn square_machine() -> Turing<(Tape<char>, Tape<char>), u8> {
    let rules: Vec<(u8, (char, char), (Dir, Dir), (char, char), u8)> = vec![
        (START, ('1', '_'), (Right, Stay), ('1', '_'), RESET),
        (BUMP, ('1', '1'), (Right, Right), ('1', '1'), BUMP),
        (BUMP, ('1', '_'), (Right, Stay), ('1', '1'), RESET),
        (RESET, ('1', '1'), (Right, Left), ('1', '1'), RESET),
        (RESET, ('1', '_'), (Right, Right), ('1', '_'), BUMP),
        (RESET, ('_', '_'), (Stay, Right), ('_', '_'), DONE),
    ];
    let mut table = Table::new();
    for (mem, sym, dir, new_sym, next) in rules {
        table.insert((sym, mem), (dir, new_sym, next));
    }
    Turing::new(table, ('_', '_'), START, DONE)
}

fn multiply_machine() -> Turing<Vec<Tape<char>>, u8> {
    let (start, par1, par2, reset2, reset1) = (0u8, 1u8, 2u8, 3u8, 4u8);
    let (calc, calc_reset, climb1, clear1, clear2, cleanup, done) =
        (5u8, 6u8, 7u8, 8u8, 9u8, 10u8, 11u8);
    let rules: Vec<(u8, &str, [Dir; 3], &str, u8)> = vec![
        (start, "#__", [Right, Right, Stay], "##_", par1),
        (par1, "1__", [Right, Right, Stay], "11_", par1),
        (par1, "#__", [Right, Stay, Right], "###", par2),
        (par2, "1#_", [Right, Stay, Right], "1#1", par2),
        (par2, "##_", [Left, Stay, Left], "_##", reset2),
        (reset2, "1#1", [Left, Stay, Left], "_#1", reset2),
        (reset2, "###", [Left, Left, Stay], "_##", reset1),
        (reset1, "11#", [Left, Left, Stay], "_1#", reset1),
        (reset1, "###", [Right, Right, Right], "###", calc),
        (calc, "_11", [Right, Right, Stay], "111", calc),
        (calc, "_#1", [Stay, Left, Stay], "_#1", calc_reset),
        (calc, "_1#", [Stay, Right, Stay], "#1#", climb1),
        (calc, "_##", [Stay, Stay, Stay], "###", climb1),
        (calc_reset, "_11", [Stay, Left, Stay], "_11", calc_reset),
        (calc_reset, "_#1", [Stay, Right, Right], "_#1", calc),
        (climb1, "#1#", [Stay, Right, Stay], "#1#", climb1),
        (climb1, "###", [Stay, Left, Stay], "#_#", clear1),
        (clear1, "#1#", [Stay, Left, Stay], "#_#", clear1),
        (clear1, "###", [Stay, Stay, Left], "#__", clear2),
        (clear2, "#_1", [Stay, Stay, Left], "#__", clear2),
        (clear2, "#_#", [Left, Stay, Stay], "#__", cleanup),
        (cleanup, "1__", [Left, Stay, Stay], "1__", cleanup),
        (cleanup, "#__", [Stay, Stay, Stay], "#__", done),
    ];
    let mut table = Table::new();
    for (mem, sym, dir, new_sym, next) in rules {
        table.insert(
            (sym.chars().collect::<Vec<char>>(), mem),
            (dir.to_vec(), new_sym.chars().collect::<Vec<char>>(), next),
        );
    }
    Turing::new(table, vec!['_', '_', '_'], start, done)
}

#[test]
fn copy_duplicates_payload() {
    let t = copy_machine();
    let fin = t.run(tape("_abbaab")).expect("the copy machine accepts");
    assert_eq!(text(&fin), "_abbaab_abbaab");
    assert_eq!(fin.position(), 0);
}

#[test]
fn copy_is_deterministic() {
    let t = copy_machine();
    let a = t.run(tape("_abbaab")).unwrap();
    let b = t.run(tape("_abbaab")).unwrap();
    assert_eq!(a.cells(), b.cells());
    assert_eq!(a.position(), b.position());
}

#[test]
fn copy_debug_matches_run_and_observes_each_step() {
    let t = copy_machine();
    let seen = Cell::new(0usize);
    let first_state = Cell::new(-1i32);
    let fin = t
        .debug(tape("_abbaab"), |_space: &Tape<char>, mem: &i32| {
            if seen.get() == 0 {
                first_state.set(*mem);
            }
            seen.set(seen.get() + 1);
        })
        .unwrap();
    assert_eq!(text(&fin), "_abbaab_abbaab");
    assert_eq!(seen.get(), 99);
    assert_eq!(first_state.get(), 0);
}

#[test]
fn copy_of_empty_payload() {
    let t = copy_machine();
    let fin = t.run(tape("_")).unwrap();
    assert_eq!(text(&fin), "__");
    assert_eq!(fin.position(), 0);
}

#[test]
fn square_accepts_sixteen() {
    let t = square_machine();
    let fin = t.run((tape("1111111111111111"), tape("_"))).expect("16 is a square");
    assert_eq!(text(&fin.0), "1111111111111111_");
    assert_eq!(text(&fin.1), "_111");
}

#[test]
fn square_on_array_of_tracks() {
    let rules: Vec<(u8, [char; 2], [Dir; 2], [char; 2], u8)> = vec![
        (START, ['1', '_'], [Right, Stay], ['1', '_'], RESET),
        (BUMP, ['1', '1'], [Right, Right], ['1', '1'], BUMP),
        (BUMP, ['1', '_'], [Right, Stay], ['1', '1'], RESET),
        (RESET, ['1', '1'], [Right, Left], ['1', '1'], RESET),
        (RESET, ['1', '_'], [Right, Right], ['1', '_'], BUMP),
        (RESET, ['_', '_'], [Stay, Right], ['_', '_'], DONE),
    ];
    let mut table = Table::new();
    for (mem, sym, dir, new_sym, next) in rules {
        table.insert((sym, mem), (dir, new_sym, next));
    }
    let t: Turing<[Tape<char>; 2], u8> = Turing::new(table, ['_', '_'], START, DONE);
    let fin = t.run([tape("1111111111111111"), tape("_")]).expect("16 is a square");
    assert_eq!(text(&fin[0]), "1111111111111111_");
    assert_eq!(text(&fin[1]), "_111");
    assert!(t.run([tape("11111111111111111"), tape("_")]).is_none());
}

#[test]
fn square_accepts_nine_with_counter_three() {
    let t = square_machine();
    let fin = t.run((tape("111111111"), tape("_"))).unwrap();
    assert_eq!(text(&fin.1), "_11");
}

#[test]
fn square_fails_on_seventeen() {
    let t = square_machine();
    assert!(t.run((tape("11111111111111111"), tape("_"))).is_none());
    let steps = Cell::new(0usize);
    let r = t.debug((tape("11111111111111111"), tape("_")), |_s: &(Tape<char>, Tape<char>), _m: &u8| {
        steps.set(steps.get() + 1)
    });
    assert!(r.is_none());
    assert_eq!(steps.get(), 18);
}

#[test]
fn multiply_three_by_four() {
    let t = multiply_machine();
    let fin = t
        .run(vec![tape("#111#1111#"), tape("_"), tape("_")])
        .expect("the multiplier accepts");
    let product = text(&fin[0]);
    assert_eq!(product, "#111111111111#");
    assert_eq!(product.chars().filter(|c| *c == '1').count(), 12);
    assert_eq!(fin[0].position(), 0);
    assert!(text(&fin[1]).chars().all(|c| c == '_'));
    assert!(text(&fin[2]).chars().all(|c| c == '_'));
}

#[test]
fn stuck_at_start_fails_without_a_step() {
    let t = copy_machine();
    let steps = Cell::new(0usize);
    let r = t.debug(tape("abc"), |_s: &Tape<char>, _m: &i32| steps.set(steps.get() + 1));
    assert!(r.is_none());
    assert_eq!(steps.get(), 1);
    assert!(t.step(tape("abc"), 0).is_none());
}

#[test]
fn accepting_initial_state_returns_space_unchanged() {
    let mut table = Table::new();
    table.insert(('a', 0u32), (Right, 'b', 1u32));
    let t: Turing<Tape<char>, u32> = Turing::new(table, '_', 5, 5);
    let fin = t.run(tape("abc")).unwrap();
    assert_eq!(text(&fin), "abc");
    assert_eq!(fin.position(), 0);
}

#[test]
fn step_writes_moves_and_changes_state() {
    let t = copy_machine();
    let (space, mem) = t.step(tape("_ab"), 0).unwrap();
    assert_eq!(mem, 1);
    assert_eq!(space.position(), 1);
    let (space, mem) = t.step(space, mem).unwrap();
    assert_eq!(mem, 2);
    assert_eq!(text(&space), "_Ab");
    assert_eq!(space.position(), 2);
}

#[test]
fn later_duplicate_entry_wins() {
    let mut both = Table::new();
    both.insert(('a', 0u32), (Left, 'x', 1u32));
    both.insert(('a', 0u32), (Right, 'y', 1u32));
    let mut only = Table::new();
    only.insert(('a', 0u32), (Right, 'y', 1u32));
    let t_both: Turing<Tape<char>, u32> = Turing::new(both, '_', 0, 1);
    let t_only: Turing<Tape<char>, u32> = Turing::new(only, '_', 0, 1);
    let a = t_both.run(tape("ab")).unwrap();
    let b = t_only.run(tape("ab")).unwrap();
    assert_eq!(text(&a), "yb");
    assert_eq!(a.position(), 1);
    assert_eq!(a.cells(), b.cells());
    assert_eq!(a.position(), b.position());
}
