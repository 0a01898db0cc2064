use std::collections::VecDeque;

use turing::{Dir, Space, Tape};

fn tape(s: &str) -> Tape<char> {
    Tape::new(s.chars().collect::<VecDeque<char>>())
}

fn text(t: &Tape<char>) -> String {
    t.cells().into_iter().collect()
}

#[test]
fn vec_read_yields_one_symbol_per_track_in_order() {
    let tracks = vec![tape("abc"), tape("x"), tape("12")];
    assert_eq!(tracks.read(), vec!['a', 'x', '1']);
    let none: Vec<Tape<char>> = Vec::new();
    assert_eq!(none.read(), Vec::<char>::new());
}

#[test]
fn vec_write_goes_to_matching_tracks() {
    let mut tracks = vec![tape("abc"), tape("x")];
    tracks.write(&vec!['A', 'Y']);
    assert_eq!(tracks.read(), vec!['A', 'Y']);
    assert_eq!(text(&tracks[0]), "Abc");
    assert_eq!(text(&tracks[1]), "Y");
}

#[test]
fn vec_tracks_move_independently() {
    let mut tracks = vec![tape("abc"), tape("x"), tape("pq")];
    tracks.mov(&vec![Dir::Right, Dir::Left, Dir::Stay], &vec!['_', '#', '*']);
    assert_eq!(tracks.read(), vec!['b', '#', 'p']);
    assert_eq!(text(&tracks[0]), "abc");
    assert_eq!(text(&tracks[1]), "#x");
    assert_eq!(text(&tracks[2]), "pq");
    tracks.mov(&vec![Dir::Right, Dir::Right, Dir::Right], &vec!['_', '#', '*']);
    tracks.mov(&vec![Dir::Right, Dir::Right, Dir::Right], &vec!['_', '#', '*']);
    assert_eq!(tracks.read(), vec!['_', '#', '*']);
    assert_eq!(text(&tracks[0]), "abc_");
    assert_eq!(text(&tracks[1]), "#x#");
    assert_eq!(text(&tracks[2]), "pq*");
}

#[test]
fn pair_reads_writes_and_moves_per_track() {
    let mut pair = (tape("ab"), tape("1"));
    assert_eq!(pair.read(), ('a', '1'));
    pair.write(&('z', '2'));
    assert_eq!(pair.read(), ('z', '2'));
    pair.mov(&(Dir::Right, Dir::Left), &('_', '0'));
    assert_eq!(pair.read(), ('b', '0'));
    assert_eq!(text(&pair.0), "zb");
    assert_eq!(text(&pair.1), "02");
}

#[test]
fn triple_of_mixed_tracks() {
    let mut triple = (tape("ab"), Tape::new(VecDeque::from(vec![1u8, 2])), vec![tape("x"), tape("y")]);
    assert_eq!(triple.read(), ('a', 1u8, vec!['x', 'y']));
    triple.write(&('c', 9u8, vec!['X', 'Y']));
    triple.mov(&(Dir::Stay, Dir::Right, vec![Dir::Left, Dir::Right]), &('_', 0u8, vec!['-', '+']));
    assert_eq!(triple.read(), ('c', 2u8, vec!['-', '+']));
    assert_eq!(triple.1.cells(), vec![9u8, 2]);
    assert_eq!(text(&triple.2[0]), "-X");
    assert_eq!(text(&triple.2[1]), "Y+");
}

#[test]
fn composite_symbols_compare_componentwise() {
    assert!(<Vec<Tape<char>> as Space>::sym_eq(&vec!['a', 'b'], &vec!['a', 'b']));
    assert!(!<Vec<Tape<char>> as Space>::sym_eq(&vec!['a', 'b'], &vec!['a', 'c']));
    assert!(!<Vec<Tape<char>> as Space>::sym_eq(&vec!['a'], &vec!['a', 'b']));
    assert!(<(Tape<char>, Tape<char>) as Space>::sym_eq(&('a', 'b'), &('a', 'b')));
    assert!(!<(Tape<char>, Tape<char>) as Space>::sym_eq(&('a', 'b'), &('b', 'b')));
}

#[test]
fn array_reads_writes_and_moves_per_track() {
    let mut tracks = [tape("ab"), tape("x"), tape("pq")];
    assert_eq!(tracks.read(), ['a', 'x', 'p']);
    tracks.write(&['A', 'X', 'P']);
    assert_eq!(tracks.read(), ['A', 'X', 'P']);
    tracks.mov(&[Dir::Right, Dir::Left, Dir::Stay], &['_', '#', '*']);
    assert_eq!(tracks.read(), ['b', '#', 'P']);
    assert_eq!(text(&tracks[0]), "Ab");
    assert_eq!(text(&tracks[1]), "#X");
    assert_eq!(text(&tracks[2]), "Pq");
    assert!(<[Tape<char>; 3] as Space>::sym_eq(&['a', 'b', 'c'], &['a', 'b', 'c']));
    assert!(!<[Tape<char>; 3] as Space>::sym_eq(&['a', 'b', 'c'], &['a', 'b', 'd']));
}
