use std::collections::VecDeque;

use turing::{Dir, Space, Tape};

fn tape(s: &str) -> Tape<char> {
    Tape::new(s.chars().collect::<VecDeque<char>>())
}

fn text(t: &Tape<char>) -> String {
    t.cells().into_iter().collect()
}

#[test]
fn new_tape_starts_at_first_cell() {
    let t = tape("abc");
    assert_eq!(text(&t), "abc");
    assert_eq!(t.position(), 0);
    assert_eq!(t.read(), 'a');
}

#[test]
fn write_then_read_returns_symbol() {
    let mut t = tape("abc");
    t.write(&'z');
    assert_eq!(t.read(), 'z');
    assert_eq!(text(&t), "zbc");
    t.mov(&Dir::Right, &'_');
    t.write(&'y');
    assert_eq!(t.read(), 'y');
    assert_eq!(text(&t), "zyc");
}

#[test]
fn stay_and_inner_moves_do_not_grow() {
    let mut t = tape("abc");
    t.mov(&Dir::Stay, &'_');
    assert_eq!(text(&t), "abc");
    assert_eq!(t.position(), 0);
    t.mov(&Dir::Right, &'_');
    assert_eq!(t.position(), 1);
    assert_eq!(t.read(), 'b');
    t.mov(&Dir::Left, &'_');
    assert_eq!(t.position(), 0);
    assert_eq!(text(&t), "abc");
}

#[test]
fn left_at_edge_grows_by_one_default_cell() {
    let mut t = tape("ab");
    t.mov(&Dir::Left, &'_');
    assert_eq!(text(&t), "_ab");
    assert_eq!(t.position(), 0);
    assert_eq!(t.read(), '_');
    t.mov(&Dir::Left, &'#');
    assert_eq!(text(&t), "#_ab");
    assert_eq!(t.position(), 0);
    t.mov(&Dir::Right, &'_');
    t.mov(&Dir::Right, &'_');
    assert_eq!(t.read(), 'a');
    assert_eq!(t.position(), 2);
    assert_eq!(text(&t), "#_ab");
}

#[test]
fn right_at_edge_grows_by_one_default_cell() {
    let mut t = tape("a");
    t.mov(&Dir::Right, &'_');
    assert_eq!(text(&t), "a_");
    assert_eq!(t.position(), 1);
    t.mov(&Dir::Right, &'x');
    assert_eq!(text(&t), "a_x");
    assert_eq!(t.position(), 2);
    assert_eq!(t.read(), 'x');
}

#[test]
fn growth_counts_boundary_crossings() {
    let mut t = tape("abc");
    let moves = [
        Dir::Right, Dir::Right, Dir::Right, Dir::Stay, Dir::Left, Dir::Left, Dir::Left,
        Dir::Left, Dir::Left, Dir::Right,
    ];
    let mut crossings = 0;
    for d in moves.iter() {
        let before = t.cells().len();
        let pos = t.position();
        let crossing = match d {
            Dir::Left => pos == 0,
            Dir::Stay => false,
            Dir::Right => pos + 1 == before,
        };
        t.mov(d, &'_');
        let after = t.cells().len();
        assert_eq!(after, before + if crossing { 1 } else { 0 });
        if crossing {
            crossings += 1;
        }
    }
    assert_eq!(crossings, 3);
    assert_eq!(text(&t), "__abc_");
    assert_eq!(t.position(), 1);
}

#[test]
fn write_after_left_growth_lands_on_new_cell() {
    let mut t = tape("ab");
    t.mov(&Dir::Left, &'_');
    t.write(&'x');
    assert_eq!(text(&t), "xab");
    t.mov(&Dir::Right, &'_');
    t.mov(&Dir::Right, &'_');
    t.mov(&Dir::Right, &'_');
    t.write(&'y');
    assert_eq!(text(&t), "xaby");
    assert_eq!(t.position(), 3);
}

#[test]
fn symbols_compare_by_value() {
    assert!(<Tape<char> as Space>::sym_eq(&'a', &'a'));
    assert!(!<Tape<char> as Space>::sym_eq(&'a', &'b'));
}
