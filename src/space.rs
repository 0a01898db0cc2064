//! The capability of a space: a current symbol that can be read and overwritten,
//! and a position that moves one cell at a time.
use vstd::prelude::*;

verus! {

/// A movement instruction for one track.
#[derive(Debug, PartialEq, Eq, Clone, Copy, Hash)]
pub enum Dir {
    Left,
    Stay,
    Right,
}

/// A plain value with decidable equality: a symbol of a track or a control state.
pub trait Atom: Copy {
    fn same(&self, other: &Self) -> (r: bool)
        ensures
            r == (*self == *other),
    ;
}

impl Atom for char {
    fn same(&self, other: &Self) -> (r: bool) {
        *self == *other
    }
}

impl Atom for bool {
    fn same(&self, other: &Self) -> (r: bool) {
        *self == *other
    }
}

impl Atom for u8 {
    fn same(&self, other: &Self) -> (r: bool) {
        *self == *other
    }
}

impl Atom for u32 {
    fn same(&self, other: &Self) -> (r: bool) {
        *self == *other
    }
}

impl Atom for u64 {
    fn same(&self, other: &Self) -> (r: bool) {
        *self == *other
    }
}

impl Atom for usize {
    fn same(&self, other: &Self) -> (r: bool) {
        *self == *other
    }
}

impl Atom for i32 {
    fn same(&self, other: &Self) -> (r: bool) {
        *self == *other
    }
}

impl Atom for i64 {
    fn same(&self, other: &Self) -> (r: bool) {
        *self == *other
    }
}

/// Storage with a cursor, made of one or more tracks.
///
/// Every space has a mathematical model (`Model`), and its symbols and
/// directions have models too; `read`, `write` and `mov` are specified by
/// `read_spec`, `write_spec` and `move_spec` over those models.
pub trait Space: Sized {
    type Sym;
    type Dir;
    type Model;
    type SymModel;
    type DirModel;

    spec fn model(&self) -> Self::Model;

    spec fn sym_model(sym: &Self::Sym) -> Self::SymModel;

    spec fn dir_model(dir: &Self::Dir) -> Self::DirModel;

    /// Every cursor points at a cell of its track.
    spec fn valid(m: Self::Model) -> bool;

    /// The symbol has one component for each track, in the tracks' shape.
    spec fn fits_sym(m: Self::Model, s: Self::SymModel) -> bool;

    /// The direction has one component for each track, in the tracks' shape.
    spec fn fits_dir(m: Self::Model, d: Self::DirModel) -> bool;

    spec fn read_spec(m: Self::Model) -> Self::SymModel;

    spec fn write_spec(m: Self::Model, s: Self::SymModel) -> Self::Model;

    spec fn move_spec(m: Self::Model, d: Self::DirModel, def: Self::SymModel) -> Self::Model;

    /// Reading yields a symbol of the space's shape.
    proof fn lemma_read(m: Self::Model)
        requires
            Self::valid(m),
        ensures
            Self::fits_sym(m, Self::read_spec(m)),
    ;

    /// Writing keeps the space valid and its shape, and reading then yields
    /// what was written.
    proof fn lemma_write(m: Self::Model, s: Self::SymModel)
        requires
            Self::valid(m),
            Self::fits_sym(m, s),
        ensures
            Self::valid(Self::write_spec(m, s)),
            Self::read_spec(Self::write_spec(m, s)) == s,
            forall|x: Self::SymModel| #[trigger]
                Self::fits_sym(Self::write_spec(m, s), x) == Self::fits_sym(m, x),
            forall|x: Self::DirModel| #[trigger]
                Self::fits_dir(Self::write_spec(m, s), x) == Self::fits_dir(m, x),
    ;

    /// Moving keeps the space valid and its shape.
    proof fn lemma_move(m: Self::Model, d: Self::DirModel, def: Self::SymModel)
        requires
            Self::valid(m),
            Self::fits_dir(m, d),
            Self::fits_sym(m, def),
        ensures
            Self::valid(Self::move_spec(m, d, def)),
            forall|x: Self::SymModel| #[trigger]
                Self::fits_sym(Self::move_spec(m, d, def), x) == Self::fits_sym(m, x),
            forall|x: Self::DirModel| #[trigger]
                Self::fits_dir(Self::move_spec(m, d, def), x) == Self::fits_dir(m, x),
    ;

    /// The symbol under the cursor of each track.
    fn read(&self) -> (r: Self::Sym)
        requires
            Self::valid(self.model()),
        ensures
            Self::sym_model(&r) == Self::read_spec(self.model()),
    ;

    /// Overwrites the symbol under the cursor of each track.
    fn write(&mut self, sym: &Self::Sym)
        requires
            Self::valid(old(self).model()),
            Self::fits_sym(old(self).model(), Self::sym_model(sym)),
        ensures
            final(self).model() == Self::write_spec(old(self).model(), Self::sym_model(sym)),
    ;

    /// Moves each track's cursor in its own direction, growing the track by
    /// one cell of its default symbol where the cursor leaves it.
    fn mov(&mut self, dir: &Self::Dir, def: &Self::Sym)
        requires
            Self::valid(old(self).model()),
            Self::fits_dir(old(self).model(), Self::dir_model(dir)),
            Self::fits_sym(old(self).model(), Self::sym_model(def)),
        ensures
            final(self).model() == Self::move_spec(
                old(self).model(),
                Self::dir_model(dir),
                Self::sym_model(def),
            ),
    ;

    /// Whether two symbols of this space are the same.
    fn sym_eq(a: &Self::Sym, b: &Self::Sym) -> (r: bool)
        ensures
            r == (Self::sym_model(a) == Self::sym_model(b)),
    ;
}

} // verus!
