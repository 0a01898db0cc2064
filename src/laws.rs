//! Properties of tracks, spaces and machines, proved over their models.
use vstd::prelude::*;

use crate::space::{Atom, Dir, Space};
use crate::tape::{tape_move, TapeModel};
use crate::turing::{find, Turing};

verus! {

/// Whether a move takes the cursor past an end of the track.
pub open spec fn crosses<Sym>(m: TapeModel<Sym>, d: Dir) -> bool {
    match d {
        Dir::Left => m.1 == 0,
        Dir::Stay => false,
        Dir::Right => m.1 + 1 == m.0.len(),
    }
}

/// The track after the moves `ds`, in order.
pub open spec fn tape_moves<Sym>(m: TapeModel<Sym>, ds: Seq<Dir>, def: Sym) -> TapeModel<Sym>
    decreases ds.len(),
{
    if ds.len() == 0 {
        m
    } else {
        tape_move(tape_moves(m, ds.drop_last(), def), ds.last(), def)
    }
}

/// How many of the moves `ds` take the cursor past an end of the track.
pub open spec fn crossings<Sym>(m: TapeModel<Sym>, ds: Seq<Dir>, def: Sym) -> nat
    decreases ds.len(),
{
    if ds.len() == 0 {
        0
    } else {
        crossings(m, ds.drop_last(), def) + if crosses(tape_moves(m, ds.drop_last(), def), ds.last()) {
            1nat
        } else {
            0nat
        }
    }
}

/// A move that crosses an end of the track adds exactly one cell, holding
/// the default symbol, at that end; any other move leaves the cells as they
/// are. The cursor stays on a cell.
pub proof fn lemma_move_growth<Sym>(m: TapeModel<Sym>, d: Dir, def: Sym)
    requires
        0 <= m.1 < m.0.len(),
    ensures
        0 <= tape_move(m, d, def).1 < tape_move(m, d, def).0.len(),
        crosses(m, d) && d == Dir::Left ==> tape_move(m, d, def).0 == seq![def] + m.0,
        crosses(m, d) && d == Dir::Right ==> tape_move(m, d, def).0 == m.0.push(def),
        crosses(m, d) ==> tape_move(m, d, def).0.len() == m.0.len() + 1,
        !crosses(m, d) ==> tape_move(m, d, def).0 == m.0,
{
}

/// Over any sequence of moves the track grows by exactly the number of
/// boundary crossings.
pub proof fn lemma_moves_growth<Sym>(m: TapeModel<Sym>, ds: Seq<Dir>, def: Sym)
    requires
        0 <= m.1 < m.0.len(),
    ensures
        0 <= tape_moves(m, ds, def).1 < tape_moves(m, ds, def).0.len(),
        tape_moves(m, ds, def).0.len() == m.0.len() + crossings(m, ds, def),
    decreases ds.len(),
{
    if ds.len() > 0 {
        lemma_moves_growth(m, ds.drop_last(), def);
        lemma_move_growth(tape_moves(m, ds.drop_last(), def), ds.last(), def);
    }
}

/// Reading right after a write yields the symbol written.
pub proof fn lemma_read_after_write<S: Space>(m: S::Model, s: S::SymModel)
    requires
        S::valid(m),
        S::fits_sym(m, s),
    ensures
        S::read_spec(S::write_spec(m, s)) == s,
{
    S::lemma_write(m, s);
}

/// Any two runs from the same space and state that reach the accepting
/// state, whatever their step limits, end in the same space.
pub proof fn lemma_run_deterministic<S: Space, Mem: Atom>(
    t: Turing<S, Mem>,
    m: S::Model,
    mem: Mem,
    f1: nat,
    f2: nat,
)
    requires
        t.run_spec(m, mem, f1) is Some,
        t.run_spec(m, mem, f2) is Some,
    ensures
        t.run_spec(m, mem, f1) == t.run_spec(m, mem, f2),
    decreases f1,
{
    if mem != t.accepted_spec() {
        let next = t.step_spec(m, mem)->0;
        lemma_run_deterministic(t, next.0, next.1, (f1 - 1) as nat, (f2 - 1) as nat);
    }
}

/// A machine whose table has no entry for the first symbol and the initial
/// state, which is not the accepting one, takes no step and fails.
pub proof fn lemma_stuck_at_start<S: Space, Mem: Atom>(t: Turing<S, Mem>, m: S::Model)
    requires
        find(t.rules(), S::read_spec(m), t.initial_spec()) is None,
        t.initial_spec() != t.accepted_spec(),
    ensures
        t.step_spec(m, t.initial_spec()) is None,
        t.outcome(m) is None,
{
}

/// Reading a vector of tracks yields one symbol per track, in track order,
/// and a symbol written to it has one component per track.
pub proof fn lemma_composite_shape<T: Space>(m: Seq<T::Model>, s: Seq<T::SymModel>)
    ensures
        Vec::<T>::read_spec(m).len() == m.len(),
        forall|i: int| 0 <= i < m.len() ==> #[trigger] Vec::<T>::read_spec(m)[i] == T::read_spec(m[i]),
        Vec::<T>::fits_sym(m, s) ==> s.len() == m.len(),
{
}

/// Of two entries inserted for the same key, the later one is the one found.
pub proof fn lemma_last_insert_wins<A, M, D>(
    rules: Seq<(A, M, D, A, M)>,
    a: (A, M, D, A, M),
    b: (A, M, D, A, M),
    sym: A,
    mem: M,
)
    requires
        a.0 == b.0,
        a.1 == b.1,
    ensures
        find(rules.push(a).push(b), sym, mem) == find(rules.push(b), sym, mem),
{
    assert(rules.push(a).push(b).drop_last() =~= rules.push(a));
    assert(rules.push(b).drop_last() =~= rules);
    assert(rules.push(a).drop_last() =~= rules);
    reveal_with_fuel(find, 2);
}

/// Machines whose tables find the same entries, with the same blank symbol
/// and accepting state, run alike.
pub proof fn lemma_same_entries_same_run<S: Space, Mem: Atom>(
    t1: Turing<S, Mem>,
    t2: Turing<S, Mem>,
    m: S::Model,
    mem: Mem,
    fuel: nat,
)
    requires
        forall|x: S::SymModel, y: Mem| #[trigger]
            find(t1.rules(), x, y) == find(t2.rules(), x, y),
        t1.default_spec() == t2.default_spec(),
        t1.accepted_spec() == t2.accepted_spec(),
    ensures
        t1.step_spec(m, mem) == t2.step_spec(m, mem),
        t1.run_spec(m, mem, fuel) == t2.run_spec(m, mem, fuel),
    decreases fuel,
{
    assert(find(t1.rules(), S::read_spec(m), mem) == find(t2.rules(), S::read_spec(m), mem));
    if mem != t1.accepted_spec() && fuel > 0 {
        if let Some(next) = t1.step_spec(m, mem) {
            lemma_same_entries_same_run(t1, t2, next.0, next.1, (fuel - 1) as nat);
        }
    }
}

/// A machine built from a table in which entry `b` was inserted after entry
/// `a` for the same key runs exactly as one whose table holds only `b` there.
pub proof fn lemma_overridden_entry<S: Space, Mem: Atom>(
    t1: Turing<S, Mem>,
    t2: Turing<S, Mem>,
    rules: Seq<(S::SymModel, Mem, S::DirModel, S::SymModel, Mem)>,
    a: (S::SymModel, Mem, S::DirModel, S::SymModel, Mem),
    b: (S::SymModel, Mem, S::DirModel, S::SymModel, Mem),
    m: S::Model,
)
    requires
        a.0 == b.0,
        a.1 == b.1,
        t1.rules() == rules.push(a).push(b),
        t2.rules() == rules.push(b),
        t1.default_spec() == t2.default_spec(),
        t1.initial_spec() == t2.initial_spec(),
        t1.accepted_spec() == t2.accepted_spec(),
    ensures
        t1.outcome(m) == t2.outcome(m),
{
    assert forall|x: S::SymModel, y: Mem| #[trigger]
        find(t1.rules(), x, y) == find(t2.rules(), x, y) by {
        lemma_last_insert_wins(rules, a, b, x, y);
    }
    lemma_same_entries_same_run(t1, t2, m, t1.initial_spec(), u64::MAX as nat);
}

} // verus!
