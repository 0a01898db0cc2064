//! The transition table and the machine that runs a space under it.
use vstd::prelude::*;

use crate::space::{Atom, Space};

verus! {

/// The entry that a table holds for a key: the last one inserted wins.
pub open spec fn find<A, M, D>(rules: Seq<(A, M, D, A, M)>, sym: A, mem: M) -> Option<(D, A, M)>
    decreases rules.len(),
{
    if rules.len() == 0 {
        None
    } else {
        let r = rules.last();
        if r.0 == sym && r.1 == mem {
            Some((r.2, r.3, r.4))
        } else {
            find(rules.drop_last(), sym, mem)
        }
    }
}

struct Rule<S: Space, Mem> {
    sym: S::Sym,
    mem: Mem,
    dir: S::Dir,
    write: S::Sym,
    next: Mem,
}

/// A transition table: from a symbol and a control state to a direction, a
/// symbol to write and the next control state.
pub struct Table<S: Space, Mem> {
    rules: Vec<Rule<S, Mem>>,
}

impl<S: Space, Mem: Atom> Table<S, Mem> {
    /// The entries in the order of insertion, each as
    /// (symbol read, state, direction, symbol written, next state).
    pub closed spec fn rules_spec(&self) -> Seq<(S::SymModel, Mem, S::DirModel, S::SymModel, Mem)> {
        Seq::new(
            self.rules@.len(),
            |i: int|
                {
                    let r = self.rules@[i];
                    (S::sym_model(&r.sym), r.mem, S::dir_model(&r.dir), S::sym_model(&r.write), r.next)
                },
        )
    }

    /// An empty table.
    pub fn new() -> (r: Self)
        ensures
            r.rules_spec() == Seq::<(S::SymModel, Mem, S::DirModel, S::SymModel, Mem)>::empty(),
    {
        let r = Table { rules: Vec::new() };
        assert(r.rules_spec() =~= Seq::empty());
        r
    }

    /// Adds an entry; it takes the place of any earlier entry for the same key.
    pub fn insert(&mut self, key: (S::Sym, Mem), value: (S::Dir, S::Sym, Mem))
        ensures
            final(self).rules_spec() == old(self).rules_spec().push(
                (
                    S::sym_model(&key.0),
                    key.1,
                    S::dir_model(&value.0),
                    S::sym_model(&value.1),
                    value.2,
                ),
            ),
    {
        let (sym, mem) = key;
        let (dir, write, next) = value;
        self.rules.push(Rule { sym, mem, dir, write, next });
        assert(self.rules_spec() =~= old(self).rules_spec().push(
            (S::sym_model(&key.0), key.1, S::dir_model(&value.0), S::sym_model(&value.1), value.2),
        ));
    }

    /// The index of the entry for the key, searching from the newest.
    fn lookup(&self, sym: &S::Sym, mem: &Mem) -> (r: Option<usize>)
        ensures
            match r {
                Some(i) => i < self.rules_spec().len() && find(
                    self.rules_spec(),
                    S::sym_model(sym),
                    *mem,
                ) == Some(
                    (
                        self.rules_spec()[i as int].2,
                        self.rules_spec()[i as int].3,
                        self.rules_spec()[i as int].4,
                    ),
                ),
                None => find(self.rules_spec(), S::sym_model(sym), *mem) is None,
            },
    {
        let ghost rs = self.rules_spec();
        let mut i: usize = self.rules.len();
        assert(rs.subrange(0, i as int) =~= rs);
        while i > 0
            invariant
                i <= rs.len(),
                rs == self.rules_spec(),
                find(rs, S::sym_model(sym), *mem) == find(
                    rs.subrange(0, i as int),
                    S::sym_model(sym),
                    *mem,
                ),
            decreases i,
        {
            assert(rs.subrange(0, i as int).drop_last() =~= rs.subrange(0, i - 1));
            i -= 1;
            let r = &self.rules[i];
            if S::sym_eq(&r.sym, sym) && r.mem.same(mem) {
                return Some(i);
            }
        }
        None
    }
}

/// A machine: a table, the blank symbol that fills new cells, and the
/// initial and accepting control states.
pub struct Turing<S: Space, Mem> {
    table: Table<S, Mem>,
    default: S::Sym,
    initial: Mem,
    accepted: Mem,
}

impl<S: Space, Mem: Atom> Turing<S, Mem> {
    /// The entries of the machine's table, in the order of insertion.
    pub closed spec fn rules(&self) -> Seq<(S::SymModel, Mem, S::DirModel, S::SymModel, Mem)> {
        self.table.rules_spec()
    }

    /// The blank symbol that fills new cells.
    pub closed spec fn default_spec(&self) -> S::SymModel {
        S::sym_model(&self.default)
    }

    /// The state in which a run begins.
    pub closed spec fn initial_spec(&self) -> Mem {
        self.initial
    }

    /// The state in which a run ends successfully.
    pub closed spec fn accepted_spec(&self) -> Mem {
        self.accepted
    }

    /// The space is valid, and the blank symbol and every entry of the table
    /// have its shape.
    pub open spec fn fits(&self, m: S::Model) -> bool {
        &&& S::valid(m)
        &&& S::fits_sym(m, self.default_spec())
        &&& forall|i: int|
            0 <= i < self.rules().len() ==> #[trigger] S::fits_sym(m, self.rules()[i].3)
                && S::fits_dir(m, self.rules()[i].2)
    }

    /// One step from space `m` in state `mem`: write, move, change state; or
    /// nothing where the table has no entry.
    pub open spec fn step_spec(&self, m: S::Model, mem: Mem) -> Option<(S::Model, Mem)> {
        match find(self.rules(), S::read_spec(m), mem) {
            None => None,
            Some(e) => Some((S::move_spec(S::write_spec(m, e.1), e.0, self.default_spec()), e.2)),
        }
    }

    /// The space in which the run from `m` in state `mem` reaches the
    /// accepting state within `fuel` steps, if it does.
    pub open spec fn run_spec(&self, m: S::Model, mem: Mem, fuel: nat) -> Option<S::Model>
        decreases fuel,
    {
        if mem == self.accepted_spec() {
            Some(m)
        } else if fuel == 0 {
            None
        } else {
            match self.step_spec(m, mem) {
                None => None,
                Some(next) => self.run_spec(next.0, next.1, (fuel - 1) as nat),
            }
        }
    }

    /// What `run` returns on space `m`: the run from the initial state, given
    /// up after `u64::MAX` steps.
    pub open spec fn outcome(&self, m: S::Model) -> Option<S::Model> {
        self.run_spec(m, self.initial_spec(), u64::MAX as nat)
    }

    /// A step keeps the space fitting the machine.
    pub proof fn lemma_step_fits(&self, m: S::Model, mem: Mem)
        requires
            self.fits(m),
        ensures
            match self.step_spec(m, mem) {
                Some(next) => self.fits(next.0),
                None => true,
            },
    {
        if let Some(e) = find(self.rules(), S::read_spec(m), mem) {
            lemma_find_in::<S::SymModel, Mem, S::DirModel>(self.rules(), S::read_spec(m), mem);
            let i = choose|i: int|
                0 <= i < self.rules().len() && (self.rules()[i].2, self.rules()[i].3, self.rules()[i].4) == e;
            assert(S::fits_sym(m, self.rules()[i].3));
            S::lemma_write(m, e.1);
            let w = S::write_spec(m, e.1);
            S::lemma_move(w, e.0, self.default_spec());
            let n = S::move_spec(w, e.0, self.default_spec());
            assert forall|j: int| 0 <= j < self.rules().len() implies #[trigger] S::fits_sym(
                n,
                self.rules()[j].3,
            ) && S::fits_dir(n, self.rules()[j].2) by {
                assert(S::fits_sym(m, self.rules()[j].3));
            }
        }
    }

    /// A machine with the given table, blank symbol, initial and accepting states.
    pub fn new(table: Table<S, Mem>, default: S::Sym, initial: Mem, accepted: Mem) -> (r: Self)
        ensures
            r.rules() == table.rules_spec(),
            r.default_spec() == S::sym_model(&default),
            r.initial_spec() == initial,
            r.accepted_spec() == accepted,
    {
        Turing { table, default, initial, accepted }
    }

    /// Reads, looks up the entry for the symbol and `mem`, writes its symbol,
    /// moves by its direction and returns the space with its next state; or
    /// `None` where the table has no entry.
    pub fn step(&self, space: S, mem: Mem) -> (r: Option<(S, Mem)>)
        requires
            self.fits(space.model()),
        ensures
            match r {
                Some(next) => self.step_spec(space.model(), mem) == Some((next.0.model(), next.1)),
                None => self.step_spec(space.model(), mem) is None,
            },
    {
        let ghost m = space.model();
        let mut space = space;
        let sym = space.read();
        match self.table.lookup(&sym, &mem) {
            None => None,
            Some(i) => {
                let rule = &self.table.rules[i];
                proof {
                    let rs = self.rules();
                    assert(rs[i as int].3 == S::sym_model(&rule.write));
                    assert(S::fits_sym(m, rs[i as int].3));
                    S::lemma_write(m, S::sym_model(&rule.write));
                }
                space.write(&rule.write);
                space.mov(&rule.dir, &self.default);
                Some((space, rule.next))
            },
        }
    }

    /// Runs from the initial state until the accepting state, and returns the
    /// final space; `None` where the machine gets stuck. A run that has not
    /// ended after `u64::MAX` steps is given up with `None`.
    pub fn run(&self, space: S) -> (r: Option<S>)
        requires
            self.fits(space.model()),
        ensures
            r is Some ==> self.outcome(space.model()) == Some(r->0.model()),
            r is None ==> self.outcome(space.model()) is None,
    {
        let ghost m0 = space.model();
        let mut cur = space;
        let mut mem = self.initial;
        let mut fuel: u64 = u64::MAX;
        while !mem.same(&self.accepted)
            invariant
                m0 == space.model(),
                self.fits(cur.model()),
                self.outcome(m0) == self.run_spec(cur.model(), mem, fuel as nat),
            decreases fuel,
        {
            if fuel == 0 {
                return None;
            }
            proof {
                self.lemma_step_fits(cur.model(), mem);
            }
            match self.step(cur, mem) {
                None => {
                    return None;
                },
                Some(next) => {
                    cur = next.0;
                    mem = next.1;
                },
            }
            fuel -= 1;
        }
        Some(cur)
    }

    /// Runs as `run` does, handing the space and the state to `peek` before
    /// each step.
    pub fn debug<F: Fn(&S, &Mem)>(&self, space: S, peek: F) -> (r: Option<S>)
        requires
            self.fits(space.model()),
            forall|s: &S, m: &Mem| #[trigger] peek.requires((s, m)),
        ensures
            r is Some ==> self.outcome(space.model()) == Some(r->0.model()),
            r is None ==> self.outcome(space.model()) is None,
    {
        let ghost m0 = space.model();
        let mut cur = space;
        let mut mem = self.initial;
        let mut fuel: u64 = u64::MAX;
        while !mem.same(&self.accepted)
            invariant
                m0 == space.model(),
                forall|s: &S, m: &Mem| #[trigger] peek.requires((s, m)),
                self.fits(cur.model()),
                self.outcome(m0) == self.run_spec(cur.model(), mem, fuel as nat),
            decreases fuel,
        {
            if fuel == 0 {
                return None;
            }
            peek(&cur, &mem);
            proof {
                self.lemma_step_fits(cur.model(), mem);
            }
            match self.step(cur, mem) {
                None => {
                    return None;
                },
                Some(next) => {
                    cur = next.0;
                    mem = next.1;
                },
            }
            fuel -= 1;
        }
        Some(cur)
    }
}

/// An entry that `find` returns is one of the table's entries.
proof fn lemma_find_in<A, M, D>(rules: Seq<(A, M, D, A, M)>, sym: A, mem: M)
    requires
        find(rules, sym, mem) is Some,
    ensures
        exists|i: int|
            0 <= i < rules.len() && (rules[i].2, rules[i].3, rules[i].4) == find(rules, sym, mem)->0,
    decreases rules.len(),
{
    let r = rules.last();
    if !(r.0 == sym && r.1 == mem) {
        lemma_find_in(rules.drop_last(), sym, mem);
        let i = choose|i: int|
            0 <= i < rules.drop_last().len() && (rules.drop_last()[i].2, rules.drop_last()[i].3,
            rules.drop_last()[i].4) == find(rules.drop_last(), sym, mem)->0;
        assert(rules[i] == rules.drop_last()[i]);
    } else {
        assert(rules[rules.len() - 1] == r);
    }
}

} // verus!
