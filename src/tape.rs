//! The primitive track: a sequence of cells that grows by one cell at either
//! end when the cursor crosses it.
use std::collections::VecDeque;
use vstd::prelude::*;

use crate::space::{Atom, Dir, Space};

verus! {

/// A track that grows on demand at both ends.
///
/// The cells left of the original first cell are kept in `left`, nearest
/// first, so that growing at either end is a push. The cursor is cell `idx`
/// of `left` when `on_left` holds, else cell `idx` of `right`.
pub struct Tape<Sym> {
    left: Vec<Sym>,
    right: Vec<Sym>,
    on_left: bool,
    idx: usize,
}

/// The cells of a track from left to right, and the cursor's index in them.
pub type TapeModel<Sym> = (Seq<Sym>, int);

/// The track after one move: a boundary crossing adds one default cell.
pub open spec fn tape_move<Sym>(m: TapeModel<Sym>, d: Dir, def: Sym) -> TapeModel<Sym> {
    match d {
        Dir::Left => if m.1 == 0 {
            (seq![def] + m.0, 0)
        } else {
            (m.0, m.1 - 1)
        },
        Dir::Stay => m,
        Dir::Right => if m.1 + 1 == m.0.len() {
            (m.0.push(def), m.1 + 1)
        } else {
            (m.0, m.1 + 1)
        },
    }
}

impl<Sym> Tape<Sym> {
    /// The cells from left to right.
    pub closed spec fn cells_spec(&self) -> Seq<Sym> {
        let l = self.left@.len();
        Seq::new(
            l + self.right@.len(),
            |i: int| if i < l { self.left@[l - 1 - i] } else { self.right@[i - l] },
        )
    }

    /// The cursor's index in the cells.
    pub closed spec fn pos_spec(&self) -> int {
        if self.on_left {
            self.left@.len() - 1 - self.idx
        } else {
            self.left@.len() + self.idx
        }
    }

    /// A track holding `tape`, with the cursor on its first cell.
    pub fn new(tape: VecDeque<Sym>) -> (r: Self)
        where Sym: Copy,
        requires
            tape@.len() > 0,
        ensures
            r.cells_spec() == tape@,
            r.pos_spec() == 0,
    {
        let mut right: Vec<Sym> = Vec::new();
        let n = tape.len();
        let mut i: usize = 0;
        while i < n
            invariant
                n == tape@.len(),
                i <= n,
                right@ == tape@.subrange(0, i as int),
            decreases n - i,
        {
            right.push(tape[i]);
            i += 1;
        }
        let r = Tape { left: Vec::new(), right, on_left: false, idx: 0 };
        assert(r.cells_spec() =~= tape@);
        r
    }

    /// The cells from left to right.
    pub fn cells(&self) -> (r: Vec<Sym>)
        where Sym: Copy,
        requires
            self.cells_spec().len() <= usize::MAX,
        ensures
            r@ == self.cells_spec(),
    {
        let mut r: Vec<Sym> = Vec::new();
        let mut i: usize = self.left.len();
        while i > 0
            invariant
                i <= self.left@.len(),
                r@ == self.cells_spec().subrange(0, self.left@.len() - i),
            decreases i,
        {
            i -= 1;
            r.push(self.left[i]);
            assert(r@ =~= self.cells_spec().subrange(0, self.left@.len() - i));
        }
        let mut j: usize = 0;
        while j < self.right.len()
            invariant
                j <= self.right@.len(),
                r@ == self.cells_spec().subrange(0, self.left@.len() + j),
            decreases self.right@.len() - j,
        {
            r.push(self.right[j]);
            j += 1;
            assert(r@ =~= self.cells_spec().subrange(0, self.left@.len() + j));
        }
        assert(r@ =~= self.cells_spec());
        r
    }

    /// The cursor's index in the cells.
    pub fn position(&self) -> (r: usize)
        requires
            0 <= self.pos_spec() < self.cells_spec().len(),
            self.cells_spec().len() <= usize::MAX,
        ensures
            r == self.pos_spec(),
    {
        if self.on_left {
            self.left.len() - 1 - self.idx
        } else {
            self.left.len() + self.idx
        }
    }
}

impl<Sym: Atom> Space for Tape<Sym> {
    type Sym = Sym;
    type Dir = Dir;
    type Model = TapeModel<Sym>;
    type SymModel = Sym;
    type DirModel = Dir;

    open spec fn model(&self) -> TapeModel<Sym> {
        (self.cells_spec(), self.pos_spec())
    }

    open spec fn sym_model(sym: &Sym) -> Sym {
        *sym
    }

    open spec fn dir_model(dir: &Dir) -> Dir {
        *dir
    }

    open spec fn valid(m: TapeModel<Sym>) -> bool {
        0 <= m.1 < m.0.len()
    }

    open spec fn fits_sym(m: TapeModel<Sym>, s: Sym) -> bool {
        true
    }

    open spec fn fits_dir(m: TapeModel<Sym>, d: Dir) -> bool {
        true
    }

    open spec fn read_spec(m: TapeModel<Sym>) -> Sym {
        m.0[m.1]
    }

    open spec fn write_spec(m: TapeModel<Sym>, s: Sym) -> TapeModel<Sym> {
        (m.0.update(m.1, s), m.1)
    }

    open spec fn move_spec(m: TapeModel<Sym>, d: Dir, def: Sym) -> TapeModel<Sym> {
        tape_move(m, d, def)
    }

    proof fn lemma_read(m: TapeModel<Sym>) {
    }

    proof fn lemma_write(m: TapeModel<Sym>, s: Sym) {
    }

    proof fn lemma_move(m: TapeModel<Sym>, d: Dir, def: Sym) {
    }

    fn read(&self) -> (r: Sym) {
        if self.on_left {
            self.left[self.idx]
        } else {
            self.right[self.idx]
        }
    }

    fn write(&mut self, sym: &Sym) {
        let ghost m = self.model();
        if self.on_left {
            self.left.set(self.idx, *sym);
        } else {
            self.right.set(self.idx, *sym);
        }
        assert(self.cells_spec() =~= m.0.update(m.1, *sym));
    }

    fn mov(&mut self, dir: &Dir, def: &Sym) {
        let ghost m = self.model();
        match dir {
            Dir::Left => {
                if self.on_left {
                    let l = self.left.len();
                    self.idx = self.idx + 1;
                    if self.idx == l {
                        self.left.push(*def);
                    }
                } else if self.idx == 0 {
                    self.on_left = true;
                    if self.left.len() == 0 {
                        self.left.push(*def);
                    }
                } else {
                    self.idx = self.idx - 1;
                }
            },
            Dir::Stay => {},
            Dir::Right => {
                if !self.on_left {
                    let l = self.right.len();
                    self.idx = self.idx + 1;
                    if self.idx == l {
                        self.right.push(*def);
                    }
                } else if self.idx == 0 {
                    self.on_left = false;
                    if self.right.len() == 0 {
                        self.right.push(*def);
                    }
                } else {
                    self.idx = self.idx - 1;
                }
            },
        }
        assert(self.cells_spec() =~= tape_move(m, *dir, *def).0);
    }

    fn sym_eq(a: &Sym, b: &Sym) -> (r: bool) {
        a.same(b)
    }
}

} // verus!
