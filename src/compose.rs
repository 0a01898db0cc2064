//! Spaces made of several tracks: vectors and arrays of spaces, and tuples of
//! two to eight spaces. Each operation acts on every track at once, with that track's
//! own component of the symbol or direction.
use vstd::prelude::*;

use crate::space::Space;

verus! {

/// Empties `v` and returns its tracks in reverse order.
fn take_reversed<T>(v: &mut Vec<T>) -> (rest: Vec<T>)
    ensures
        final(v)@.len() == 0,
        rest@.len() == old(v)@.len(),
        forall|j: int|
            0 <= j < rest@.len() ==> #[trigger] rest@[j] == old(v)@[old(v)@.len() - 1 - j],
{
    let ghost orig = v@;
    let mut rest: Vec<T> = Vec::new();
    while v.len() > 0
        invariant
            v@.len() + rest@.len() == orig.len(),
            v@ == orig.subrange(0, v@.len() as int),
            forall|j: int| 0 <= j < rest@.len() ==> #[trigger] rest@[j] == orig[orig.len() - 1 - j],
        decreases v@.len(),
    {
        let t = v.pop().unwrap();
        rest.push(t);
    }
    rest
}

/// Tracks that accept the same symbols and directions one by one make
/// vectors of tracks that accept the same symbols and directions.
proof fn lemma_same_shape<T: Space>(m: Seq<T::Model>, w: Seq<T::Model>)
    requires
        w.len() == m.len(),
        forall|i: int, y: T::SymModel|
            0 <= i < m.len() ==> #[trigger] T::fits_sym(w[i], y) == T::fits_sym(m[i], y),
        forall|i: int, y: T::DirModel|
            0 <= i < m.len() ==> #[trigger] T::fits_dir(w[i], y) == T::fits_dir(m[i], y),
    ensures
        forall|x: Seq<T::SymModel>| #[trigger]
            Vec::<T>::fits_sym(w, x) == Vec::<T>::fits_sym(m, x),
        forall|x: Seq<T::DirModel>| #[trigger]
            Vec::<T>::fits_dir(w, x) == Vec::<T>::fits_dir(m, x),
{
    assert forall|x: Seq<T::SymModel>| #[trigger]
        Vec::<T>::fits_sym(w, x) == Vec::<T>::fits_sym(m, x) by {
        if x.len() == m.len() {
            if Vec::<T>::fits_sym(m, x) {
                assert forall|i: int| 0 <= i < w.len() implies #[trigger] T::fits_sym(w[i], x[i]) by {
                    assert(T::fits_sym(m[i], x[i]));
                }
            }
            if Vec::<T>::fits_sym(w, x) {
                assert forall|i: int| 0 <= i < m.len() implies #[trigger] T::fits_sym(m[i], x[i]) by {
                    assert(T::fits_sym(w[i], x[i]));
                }
            }
        }
    }
    assert forall|x: Seq<T::DirModel>| #[trigger]
        Vec::<T>::fits_dir(w, x) == Vec::<T>::fits_dir(m, x) by {
        if x.len() == m.len() {
            if Vec::<T>::fits_dir(m, x) {
                assert forall|i: int| 0 <= i < w.len() implies #[trigger] T::fits_dir(w[i], x[i]) by {
                    assert(T::fits_dir(m[i], x[i]));
                }
            }
            if Vec::<T>::fits_dir(w, x) {
                assert forall|i: int| 0 <= i < m.len() implies #[trigger] T::fits_dir(m[i], x[i]) by {
                    assert(T::fits_dir(w[i], x[i]));
                }
            }
        }
    }
}

impl<T: Space> Space for Vec<T> {
    type Sym = Vec<T::Sym>;
    type Dir = Vec<T::Dir>;
    type Model = Seq<T::Model>;
    type SymModel = Seq<T::SymModel>;
    type DirModel = Seq<T::DirModel>;

    open spec fn model(&self) -> Seq<T::Model> {
        Seq::new(self@.len(), |i: int| self@[i].model())
    }

    open spec fn sym_model(sym: &Vec<T::Sym>) -> Seq<T::SymModel> {
        Seq::new(sym@.len(), |i: int| T::sym_model(&sym@[i]))
    }

    open spec fn dir_model(dir: &Vec<T::Dir>) -> Seq<T::DirModel> {
        Seq::new(dir@.len(), |i: int| T::dir_model(&dir@[i]))
    }

    open spec fn valid(m: Seq<T::Model>) -> bool {
        forall|i: int| 0 <= i < m.len() ==> T::valid(#[trigger] m[i])
    }

    open spec fn fits_sym(m: Seq<T::Model>, s: Seq<T::SymModel>) -> bool {
        &&& s.len() == m.len()
        &&& forall|i: int| 0 <= i < m.len() ==> #[trigger] T::fits_sym(m[i], s[i])
    }

    open spec fn fits_dir(m: Seq<T::Model>, d: Seq<T::DirModel>) -> bool {
        &&& d.len() == m.len()
        &&& forall|i: int| 0 <= i < m.len() ==> #[trigger] T::fits_dir(m[i], d[i])
    }

    open spec fn read_spec(m: Seq<T::Model>) -> Seq<T::SymModel> {
        Seq::new(m.len(), |i: int| T::read_spec(m[i]))
    }

    open spec fn write_spec(m: Seq<T::Model>, s: Seq<T::SymModel>) -> Seq<T::Model> {
        Seq::new(m.len(), |i: int| T::write_spec(m[i], s[i]))
    }

    open spec fn move_spec(
        m: Seq<T::Model>,
        d: Seq<T::DirModel>,
        def: Seq<T::SymModel>,
    ) -> Seq<T::Model> {
        Seq::new(m.len(), |i: int| T::move_spec(m[i], d[i], def[i]))
    }

    proof fn lemma_read(m: Seq<T::Model>) {
        assert forall|i: int| 0 <= i < m.len() implies #[trigger] T::fits_sym(
            m[i],
            Self::read_spec(m)[i],
        ) by {
            T::lemma_read(m[i]);
        }
    }

    proof fn lemma_write(m: Seq<T::Model>, s: Seq<T::SymModel>) {
        let w = Self::write_spec(m, s);
        assert forall|i: int, y: T::SymModel| 0 <= i < m.len() implies #[trigger] T::fits_sym(
            w[i],
            y,
        ) == T::fits_sym(m[i], y) by {
            T::lemma_write(m[i], s[i]);
        }
        assert forall|i: int| 0 <= i < m.len() implies T::valid(#[trigger] w[i]) by {
            T::lemma_write(m[i], s[i]);
        }
        assert forall|i: int, y: T::DirModel| 0 <= i < m.len() implies #[trigger] T::fits_dir(
            w[i],
            y,
        ) == T::fits_dir(m[i], y) by {
            T::lemma_write(m[i], s[i]);
        }
        lemma_same_shape::<T>(m, w);
        assert forall|i: int| 0 <= i < m.len() implies #[trigger] Self::read_spec(w)[i] == s[i] by {
            T::lemma_write(m[i], s[i]);
        }
        assert(Self::read_spec(w) =~= s);
    }

    proof fn lemma_move(m: Seq<T::Model>, d: Seq<T::DirModel>, def: Seq<T::SymModel>) {
        let w = Self::move_spec(m, d, def);
        assert forall|i: int, y: T::SymModel| 0 <= i < m.len() implies #[trigger] T::fits_sym(
            w[i],
            y,
        ) == T::fits_sym(m[i], y) by {
            T::lemma_move(m[i], d[i], def[i]);
        }
        assert forall|i: int| 0 <= i < m.len() implies T::valid(#[trigger] w[i]) by {
            T::lemma_move(m[i], d[i], def[i]);
        }
        assert forall|i: int, y: T::DirModel| 0 <= i < m.len() implies #[trigger] T::fits_dir(
            w[i],
            y,
        ) == T::fits_dir(m[i], y) by {
            T::lemma_move(m[i], d[i], def[i]);
        }
        lemma_same_shape::<T>(m, w);
    }

    fn read(&self) -> (r: Vec<T::Sym>) {
        let ghost m = self.model();
        let mut r: Vec<T::Sym> = Vec::new();
        let mut i: usize = 0;
        while i < self.len()
            invariant
                m == self.model(),
                Self::valid(m),
                i <= self@.len(),
                r@.len() == i,
                forall|j: int| 0 <= j < i ==> #[trigger] T::sym_model(&r@[j]) == T::read_spec(m[j]),
            decreases self@.len() - i,
        {
            assert(T::valid(m[i as int]));
            let s = self[i].read();
            r.push(s);
            i += 1;
        }
        assert(Self::sym_model(&r) =~= Self::read_spec(m));
        r
    }

    fn write(&mut self, sym: &Vec<T::Sym>) {
        let ghost m = old(self).model();
        let ghost s = Self::sym_model(sym);
        let n = self.len();
        let mut rest = take_reversed(self);
        while rest.len() > 0
            invariant
                self@.len() + rest@.len() == n,
                n == m.len(),
                Self::valid(m),
                Self::fits_sym(m, s),
                s == Self::sym_model(sym),
                forall|j: int|
                    0 <= j < rest@.len() ==> #[trigger] rest@[j].model() == m[n - 1 - j],
                forall|j: int|
                    0 <= j < self@.len() ==> #[trigger] self@[j].model() == T::write_spec(
                        m[j],
                        s[j],
                    ),
            decreases rest@.len(),
        {
            let i = self.len();
            let mut t = rest.pop().unwrap();
            assert(T::valid(m[i as int]) && T::fits_sym(m[i as int], s[i as int]));
            t.write(&sym[i]);
            self.push(t);
        }
        assert(self.model() =~= Self::write_spec(m, s));
    }

    fn mov(&mut self, dir: &Vec<T::Dir>, def: &Vec<T::Sym>) {
        let ghost m = old(self).model();
        let ghost d = Self::dir_model(dir);
        let ghost s = Self::sym_model(def);
        let n = self.len();
        let mut rest = take_reversed(self);
        while rest.len() > 0
            invariant
                self@.len() + rest@.len() == n,
                n == m.len(),
                Self::valid(m),
                Self::fits_dir(m, d),
                Self::fits_sym(m, s),
                d == Self::dir_model(dir),
                s == Self::sym_model(def),
                forall|j: int|
                    0 <= j < rest@.len() ==> #[trigger] rest@[j].model() == m[n - 1 - j],
                forall|j: int|
                    0 <= j < self@.len() ==> #[trigger] self@[j].model() == T::move_spec(
                        m[j],
                        d[j],
                        s[j],
                    ),
            decreases rest@.len(),
        {
            let i = self.len();
            let mut t = rest.pop().unwrap();
            assert(T::valid(m[i as int]) && T::fits_dir(m[i as int], d[i as int]) && T::fits_sym(
                m[i as int],
                s[i as int],
            ));
            t.mov(&dir[i], &def[i]);
            self.push(t);
        }
        assert(self.model() =~= Self::move_spec(m, d, s));
    }

    fn sym_eq(a: &Vec<T::Sym>, b: &Vec<T::Sym>) -> (r: bool) {
        if a.len() != b.len() {
            assert(Self::sym_model(a).len() != Self::sym_model(b).len());
            return false;
        }
        let mut i: usize = 0;
        while i < a.len()
            invariant
                a@.len() == b@.len(),
                i <= a@.len(),
                forall|j: int| 0 <= j < i ==> #[trigger] T::sym_model(&a@[j]) == T::sym_model(&b@[j]),
            decreases a@.len() - i,
        {
            if !T::sym_eq(&a[i], &b[i]) {
                assert(Self::sym_model(a)[i as int] != Self::sym_model(b)[i as int]);
                return false;
            }
            i += 1;
        }
        assert(Self::sym_model(a) =~= Self::sym_model(b));
        true
    }
}

/// A fixed-size array of tracks has the model of a vector of the same tracks.
impl<T: Space, const N: usize> Space for [T; N] where T::Sym: Copy + Default {
    type Sym = [T::Sym; N];
    type Dir = [T::Dir; N];
    type Model = Seq<T::Model>;
    type SymModel = Seq<T::SymModel>;
    type DirModel = Seq<T::DirModel>;

    open spec fn model(&self) -> Seq<T::Model> {
        Seq::new(N as nat, |i: int| self@[i].model())
    }

    open spec fn sym_model(sym: &[T::Sym; N]) -> Seq<T::SymModel> {
        Seq::new(N as nat, |i: int| T::sym_model(&sym@[i]))
    }

    open spec fn dir_model(dir: &[T::Dir; N]) -> Seq<T::DirModel> {
        Seq::new(N as nat, |i: int| T::dir_model(&dir@[i]))
    }

    open spec fn valid(m: Seq<T::Model>) -> bool {
        Vec::<T>::valid(m)
    }

    open spec fn fits_sym(m: Seq<T::Model>, s: Seq<T::SymModel>) -> bool {
        Vec::<T>::fits_sym(m, s)
    }

    open spec fn fits_dir(m: Seq<T::Model>, d: Seq<T::DirModel>) -> bool {
        Vec::<T>::fits_dir(m, d)
    }

    open spec fn read_spec(m: Seq<T::Model>) -> Seq<T::SymModel> {
        Vec::<T>::read_spec(m)
    }

    open spec fn write_spec(m: Seq<T::Model>, s: Seq<T::SymModel>) -> Seq<T::Model> {
        Vec::<T>::write_spec(m, s)
    }

    open spec fn move_spec(
        m: Seq<T::Model>,
        d: Seq<T::DirModel>,
        def: Seq<T::SymModel>,
    ) -> Seq<T::Model> {
        Vec::<T>::move_spec(m, d, def)
    }

    proof fn lemma_read(m: Seq<T::Model>) {
        Vec::<T>::lemma_read(m);
    }

    proof fn lemma_write(m: Seq<T::Model>, s: Seq<T::SymModel>) {
        Vec::<T>::lemma_write(m, s);
    }

    proof fn lemma_move(m: Seq<T::Model>, d: Seq<T::DirModel>, def: Seq<T::SymModel>) {
        Vec::<T>::lemma_move(m, d, def);
    }

    fn read(&self) -> (r: [T::Sym; N]) {
        let ghost m = self.model();
        let mut r: [T::Sym; N] = [T::Sym::default(); N];
        let mut i: usize = 0;
        while i < N
            invariant
                m == self.model(),
                Self::valid(m),
                i <= N,
                forall|j: int| 0 <= j < i ==> #[trigger] T::sym_model(&r@[j]) == T::read_spec(m[j]),
            decreases N - i,
        {
            assert(T::valid(m[i as int]));
            r[i] = self[i].read();
            i += 1;
        }
        assert(Self::sym_model(&r) =~= Self::read_spec(m));
        r
    }

    fn write(&mut self, sym: &[T::Sym; N]) {
        let ghost m = old(self).model();
        let ghost s = Self::sym_model(sym);
        let mut i: usize = 0;
        while i < N
            invariant
                i <= N,
                m.len() == N,
                Self::valid(m),
                Self::fits_sym(m, s),
                s == Self::sym_model(sym),
                forall|j: int| i <= j < N ==> #[trigger] self@[j].model() == m[j],
                forall|j: int|
                    0 <= j < i ==> #[trigger] self@[j].model() == T::write_spec(m[j], s[j]),
            decreases N - i,
        {
            assert(T::valid(m[i as int]) && T::fits_sym(m[i as int], s[i as int]));
            self[i].write(&sym[i]);
            i += 1;
        }
        assert(self.model() =~= Self::write_spec(m, s));
    }

    fn mov(&mut self, dir: &[T::Dir; N], def: &[T::Sym; N]) {
        let ghost m = old(self).model();
        let ghost d = Self::dir_model(dir);
        let ghost s = Self::sym_model(def);
        let mut i: usize = 0;
        while i < N
            invariant
                i <= N,
                m.len() == N,
                Self::valid(m),
                Self::fits_dir(m, d),
                Self::fits_sym(m, s),
                d == Self::dir_model(dir),
                s == Self::sym_model(def),
                forall|j: int| i <= j < N ==> #[trigger] self@[j].model() == m[j],
                forall|j: int|
                    0 <= j < i ==> #[trigger] self@[j].model() == T::move_spec(m[j], d[j], s[j]),
            decreases N - i,
        {
            assert(T::valid(m[i as int]) && T::fits_dir(m[i as int], d[i as int]) && T::fits_sym(
                m[i as int],
                s[i as int],
            ));
            self[i].mov(&dir[i], &def[i]);
            i += 1;
        }
        assert(self.model() =~= Self::move_spec(m, d, s));
    }

    fn sym_eq(a: &[T::Sym; N], b: &[T::Sym; N]) -> (r: bool) {
        let mut i: usize = 0;
        while i < N
            invariant
                i <= N,
                forall|j: int| 0 <= j < i ==> #[trigger] T::sym_model(&a@[j]) == T::sym_model(&b@[j]),
            decreases N - i,
        {
            if !T::sym_eq(&a[i], &b[i]) {
                assert(Self::sym_model(a)[i as int] != Self::sym_model(b)[i as int]);
                return false;
            }
            i += 1;
        }
        assert(Self::sym_model(a) =~= Self::sym_model(b));
        true
    }
}

impl<T0: Space, T1: Space> Space for (T0, T1) {
    type Sym = (T0::Sym, T1::Sym);
    type Dir = (T0::Dir, T1::Dir);
    type Model = (T0::Model, T1::Model);
    type SymModel = (T0::SymModel, T1::SymModel);
    type DirModel = (T0::DirModel, T1::DirModel);

    open spec fn model(&self) -> Self::Model {
        (self.0.model(), self.1.model())
    }

    open spec fn sym_model(sym: &Self::Sym) -> Self::SymModel {
        (T0::sym_model(&sym.0), T1::sym_model(&sym.1))
    }

    open spec fn dir_model(dir: &Self::Dir) -> Self::DirModel {
        (T0::dir_model(&dir.0), T1::dir_model(&dir.1))
    }

    open spec fn valid(m: Self::Model) -> bool {
        &&& T0::valid(m.0)
        &&& T1::valid(m.1)
    }

    open spec fn fits_sym(m: Self::Model, s: Self::SymModel) -> bool {
        &&& T0::fits_sym(m.0, s.0)
        &&& T1::fits_sym(m.1, s.1)
    }

    open spec fn fits_dir(m: Self::Model, d: Self::DirModel) -> bool {
        &&& T0::fits_dir(m.0, d.0)
        &&& T1::fits_dir(m.1, d.1)
    }

    open spec fn read_spec(m: Self::Model) -> Self::SymModel {
        (T0::read_spec(m.0), T1::read_spec(m.1))
    }

    open spec fn write_spec(m: Self::Model, s: Self::SymModel) -> Self::Model {
        (T0::write_spec(m.0, s.0), T1::write_spec(m.1, s.1))
    }

    open spec fn move_spec(m: Self::Model, d: Self::DirModel, def: Self::SymModel) -> Self::Model {
        (T0::move_spec(m.0, d.0, def.0), T1::move_spec(m.1, d.1, def.1))
    }

    proof fn lemma_read(m: Self::Model) {
        T0::lemma_read(m.0);
        T1::lemma_read(m.1);
    }

    proof fn lemma_write(m: Self::Model, s: Self::SymModel) {
        T0::lemma_write(m.0, s.0);
        T1::lemma_write(m.1, s.1);
    }

    proof fn lemma_move(m: Self::Model, d: Self::DirModel, def: Self::SymModel) {
        T0::lemma_move(m.0, d.0, def.0);
        T1::lemma_move(m.1, d.1, def.1);
    }

    fn read(&self) -> (r: Self::Sym) {
        (self.0.read(), self.1.read())
    }

    fn write(&mut self, sym: &Self::Sym) {
        self.0.write(&sym.0);
        self.1.write(&sym.1);
    }

    fn mov(&mut self, dir: &Self::Dir, def: &Self::Sym) {
        self.0.mov(&dir.0, &def.0);
        self.1.mov(&dir.1, &def.1);
    }

    fn sym_eq(a: &Self::Sym, b: &Self::Sym) -> (r: bool) {
        T0::sym_eq(&a.0, &b.0) && T1::sym_eq(&a.1, &b.1)
    }
}

impl<T0: Space, T1: Space, T2: Space> Space for (T0, T1, T2) {
    type Sym = (T0::Sym, T1::Sym, T2::Sym);
    type Dir = (T0::Dir, T1::Dir, T2::Dir);
    type Model = (T0::Model, T1::Model, T2::Model);
    type SymModel = (T0::SymModel, T1::SymModel, T2::SymModel);
    type DirModel = (T0::DirModel, T1::DirModel, T2::DirModel);

    open spec fn model(&self) -> Self::Model {
        (self.0.model(), self.1.model(), self.2.model())
    }

    open spec fn sym_model(sym: &Self::Sym) -> Self::SymModel {
        (T0::sym_model(&sym.0), T1::sym_model(&sym.1), T2::sym_model(&sym.2))
    }

    open spec fn dir_model(dir: &Self::Dir) -> Self::DirModel {
        (T0::dir_model(&dir.0), T1::dir_model(&dir.1), T2::dir_model(&dir.2))
    }

    open spec fn valid(m: Self::Model) -> bool {
        &&& T0::valid(m.0)
        &&& T1::valid(m.1)
        &&& T2::valid(m.2)
    }

    open spec fn fits_sym(m: Self::Model, s: Self::SymModel) -> bool {
        &&& T0::fits_sym(m.0, s.0)
        &&& T1::fits_sym(m.1, s.1)
        &&& T2::fits_sym(m.2, s.2)
    }

    open spec fn fits_dir(m: Self::Model, d: Self::DirModel) -> bool {
        &&& T0::fits_dir(m.0, d.0)
        &&& T1::fits_dir(m.1, d.1)
        &&& T2::fits_dir(m.2, d.2)
    }

    open spec fn read_spec(m: Self::Model) -> Self::SymModel {
        (T0::read_spec(m.0), T1::read_spec(m.1), T2::read_spec(m.2))
    }

    open spec fn write_spec(m: Self::Model, s: Self::SymModel) -> Self::Model {
        (T0::write_spec(m.0, s.0), T1::write_spec(m.1, s.1), T2::write_spec(m.2, s.2))
    }

    open spec fn move_spec(m: Self::Model, d: Self::DirModel, def: Self::SymModel) -> Self::Model {
        (T0::move_spec(m.0, d.0, def.0), T1::move_spec(m.1, d.1, def.1), T2::move_spec(m.2, d.2, def.2))
    }

    proof fn lemma_read(m: Self::Model) {
        T0::lemma_read(m.0);
        T1::lemma_read(m.1);
        T2::lemma_read(m.2);
    }

    proof fn lemma_write(m: Self::Model, s: Self::SymModel) {
        T0::lemma_write(m.0, s.0);
        T1::lemma_write(m.1, s.1);
        T2::lemma_write(m.2, s.2);
    }

    proof fn lemma_move(m: Self::Model, d: Self::DirModel, def: Self::SymModel) {
        T0::lemma_move(m.0, d.0, def.0);
        T1::lemma_move(m.1, d.1, def.1);
        T2::lemma_move(m.2, d.2, def.2);
    }

    fn read(&self) -> (r: Self::Sym) {
        (self.0.read(), self.1.read(), self.2.read())
    }

    fn write(&mut self, sym: &Self::Sym) {
        self.0.write(&sym.0);
        self.1.write(&sym.1);
        self.2.write(&sym.2);
    }

    fn mov(&mut self, dir: &Self::Dir, def: &Self::Sym) {
        self.0.mov(&dir.0, &def.0);
        self.1.mov(&dir.1, &def.1);
        self.2.mov(&dir.2, &def.2);
    }

    fn sym_eq(a: &Self::Sym, b: &Self::Sym) -> (r: bool) {
        T0::sym_eq(&a.0, &b.0) && T1::sym_eq(&a.1, &b.1) && T2::sym_eq(&a.2, &b.2)
    }
}

impl<T0: Space, T1: Space, T2: Space, T3: Space> Space for (T0, T1, T2, T3) {
    type Sym = (T0::Sym, T1::Sym, T2::Sym, T3::Sym);
    type Dir = (T0::Dir, T1::Dir, T2::Dir, T3::Dir);
    type Model = (T0::Model, T1::Model, T2::Model, T3::Model);
    type SymModel = (T0::SymModel, T1::SymModel, T2::SymModel, T3::SymModel);
    type DirModel = (T0::DirModel, T1::DirModel, T2::DirModel, T3::DirModel);

    open spec fn model(&self) -> Self::Model {
        (self.0.model(), self.1.model(), self.2.model(), self.3.model())
    }

    open spec fn sym_model(sym: &Self::Sym) -> Self::SymModel {
        (T0::sym_model(&sym.0), T1::sym_model(&sym.1), T2::sym_model(&sym.2), T3::sym_model(&sym.3))
    }

    open spec fn dir_model(dir: &Self::Dir) -> Self::DirModel {
        (T0::dir_model(&dir.0), T1::dir_model(&dir.1), T2::dir_model(&dir.2), T3::dir_model(&dir.3))
    }

    open spec fn valid(m: Self::Model) -> bool {
        &&& T0::valid(m.0)
        &&& T1::valid(m.1)
        &&& T2::valid(m.2)
        &&& T3::valid(m.3)
    }

    open spec fn fits_sym(m: Self::Model, s: Self::SymModel) -> bool {
        &&& T0::fits_sym(m.0, s.0)
        &&& T1::fits_sym(m.1, s.1)
        &&& T2::fits_sym(m.2, s.2)
        &&& T3::fits_sym(m.3, s.3)
    }

    open spec fn fits_dir(m: Self::Model, d: Self::DirModel) -> bool {
        &&& T0::fits_dir(m.0, d.0)
        &&& T1::fits_dir(m.1, d.1)
        &&& T2::fits_dir(m.2, d.2)
        &&& T3::fits_dir(m.3, d.3)
    }

    open spec fn read_spec(m: Self::Model) -> Self::SymModel {
        (T0::read_spec(m.0), T1::read_spec(m.1), T2::read_spec(m.2), T3::read_spec(m.3))
    }

    open spec fn write_spec(m: Self::Model, s: Self::SymModel) -> Self::Model {
        (T0::write_spec(m.0, s.0), T1::write_spec(m.1, s.1), T2::write_spec(m.2, s.2), T3::write_spec(m.3, s.3))
    }

    open spec fn move_spec(m: Self::Model, d: Self::DirModel, def: Self::SymModel) -> Self::Model {
        (T0::move_spec(m.0, d.0, def.0), T1::move_spec(m.1, d.1, def.1), T2::move_spec(m.2, d.2, def.2), T3::move_spec(m.3, d.3, def.3))
    }

    proof fn lemma_read(m: Self::Model) {
        T0::lemma_read(m.0);
        T1::lemma_read(m.1);
        T2::lemma_read(m.2);
        T3::lemma_read(m.3);
    }

    proof fn lemma_write(m: Self::Model, s: Self::SymModel) {
        T0::lemma_write(m.0, s.0);
        T1::lemma_write(m.1, s.1);
        T2::lemma_write(m.2, s.2);
        T3::lemma_write(m.3, s.3);
    }

    proof fn lemma_move(m: Self::Model, d: Self::DirModel, def: Self::SymModel) {
        T0::lemma_move(m.0, d.0, def.0);
        T1::lemma_move(m.1, d.1, def.1);
        T2::lemma_move(m.2, d.2, def.2);
        T3::lemma_move(m.3, d.3, def.3);
    }

    fn read(&self) -> (r: Self::Sym) {
        (self.0.read(), self.1.read(), self.2.read(), self.3.read())
    }

    fn write(&mut self, sym: &Self::Sym) {
        self.0.write(&sym.0);
        self.1.write(&sym.1);
        self.2.write(&sym.2);
        self.3.write(&sym.3);
    }

    fn mov(&mut self, dir: &Self::Dir, def: &Self::Sym) {
        self.0.mov(&dir.0, &def.0);
        self.1.mov(&dir.1, &def.1);
        self.2.mov(&dir.2, &def.2);
        self.3.mov(&dir.3, &def.3);
    }

    fn sym_eq(a: &Self::Sym, b: &Self::Sym) -> (r: bool) {
        T0::sym_eq(&a.0, &b.0) && T1::sym_eq(&a.1, &b.1) && T2::sym_eq(&a.2, &b.2) && T3::sym_eq(&a.3, &b.3)
    }
}

impl<T0: Space, T1: Space, T2: Space, T3: Space, T4: Space> Space for (T0, T1, T2, T3, T4) {
    type Sym = (T0::Sym, T1::Sym, T2::Sym, T3::Sym, T4::Sym);
    type Dir = (T0::Dir, T1::Dir, T2::Dir, T3::Dir, T4::Dir);
    type Model = (T0::Model, T1::Model, T2::Model, T3::Model, T4::Model);
    type SymModel = (T0::SymModel, T1::SymModel, T2::SymModel, T3::SymModel, T4::SymModel);
    type DirModel = (T0::DirModel, T1::DirModel, T2::DirModel, T3::DirModel, T4::DirModel);

    open spec fn model(&self) -> Self::Model {
        (self.0.model(), self.1.model(), self.2.model(), self.3.model(), self.4.model())
    }

    open spec fn sym_model(sym: &Self::Sym) -> Self::SymModel {
        (T0::sym_model(&sym.0), T1::sym_model(&sym.1), T2::sym_model(&sym.2), T3::sym_model(&sym.3), T4::sym_model(&sym.4))
    }

    open spec fn dir_model(dir: &Self::Dir) -> Self::DirModel {
        (T0::dir_model(&dir.0), T1::dir_model(&dir.1), T2::dir_model(&dir.2), T3::dir_model(&dir.3), T4::dir_model(&dir.4))
    }

    open spec fn valid(m: Self::Model) -> bool {
        &&& T0::valid(m.0)
        &&& T1::valid(m.1)
        &&& T2::valid(m.2)
        &&& T3::valid(m.3)
        &&& T4::valid(m.4)
    }

    open spec fn fits_sym(m: Self::Model, s: Self::SymModel) -> bool {
        &&& T0::fits_sym(m.0, s.0)
        &&& T1::fits_sym(m.1, s.1)
        &&& T2::fits_sym(m.2, s.2)
        &&& T3::fits_sym(m.3, s.3)
        &&& T4::fits_sym(m.4, s.4)
    }

    open spec fn fits_dir(m: Self::Model, d: Self::DirModel) -> bool {
        &&& T0::fits_dir(m.0, d.0)
        &&& T1::fits_dir(m.1, d.1)
        &&& T2::fits_dir(m.2, d.2)
        &&& T3::fits_dir(m.3, d.3)
        &&& T4::fits_dir(m.4, d.4)
    }

    open spec fn read_spec(m: Self::Model) -> Self::SymModel {
        (T0::read_spec(m.0), T1::read_spec(m.1), T2::read_spec(m.2), T3::read_spec(m.3), T4::read_spec(m.4))
    }

    open spec fn write_spec(m: Self::Model, s: Self::SymModel) -> Self::Model {
        (T0::write_spec(m.0, s.0), T1::write_spec(m.1, s.1), T2::write_spec(m.2, s.2), T3::write_spec(m.3, s.3), T4::write_spec(m.4, s.4))
    }

    open spec fn move_spec(m: Self::Model, d: Self::DirModel, def: Self::SymModel) -> Self::Model {
        (T0::move_spec(m.0, d.0, def.0), T1::move_spec(m.1, d.1, def.1), T2::move_spec(m.2, d.2, def.2), T3::move_spec(m.3, d.3, def.3), T4::move_spec(m.4, d.4, def.4))
    }

    proof fn lemma_read(m: Self::Model) {
        T0::lemma_read(m.0);
        T1::lemma_read(m.1);
        T2::lemma_read(m.2);
        T3::lemma_read(m.3);
        T4::lemma_read(m.4);
    }

    proof fn lemma_write(m: Self::Model, s: Self::SymModel) {
        T0::lemma_write(m.0, s.0);
        T1::lemma_write(m.1, s.1);
        T2::lemma_write(m.2, s.2);
        T3::lemma_write(m.3, s.3);
        T4::lemma_write(m.4, s.4);
    }

    proof fn lemma_move(m: Self::Model, d: Self::DirModel, def: Self::SymModel) {
        T0::lemma_move(m.0, d.0, def.0);
        T1::lemma_move(m.1, d.1, def.1);
        T2::lemma_move(m.2, d.2, def.2);
        T3::lemma_move(m.3, d.3, def.3);
        T4::lemma_move(m.4, d.4, def.4);
    }

    fn read(&self) -> (r: Self::Sym) {
        (self.0.read(), self.1.read(), self.2.read(), self.3.read(), self.4.read())
    }

    fn write(&mut self, sym: &Self::Sym) {
        self.0.write(&sym.0);
        self.1.write(&sym.1);
        self.2.write(&sym.2);
        self.3.write(&sym.3);
        self.4.write(&sym.4);
    }

    fn mov(&mut self, dir: &Self::Dir, def: &Self::Sym) {
        self.0.mov(&dir.0, &def.0);
        self.1.mov(&dir.1, &def.1);
        self.2.mov(&dir.2, &def.2);
        self.3.mov(&dir.3, &def.3);
        self.4.mov(&dir.4, &def.4);
    }

    fn sym_eq(a: &Self::Sym, b: &Self::Sym) -> (r: bool) {
        T0::sym_eq(&a.0, &b.0) && T1::sym_eq(&a.1, &b.1) && T2::sym_eq(&a.2, &b.2) && T3::sym_eq(&a.3, &b.3) && T4::sym_eq(&a.4, &b.4)
    }
}

impl<T0: Space, T1: Space, T2: Space, T3: Space, T4: Space, T5: Space> Space for (T0, T1, T2, T3, T4, T5) {
    type Sym = (T0::Sym, T1::Sym, T2::Sym, T3::Sym, T4::Sym, T5::Sym);
    type Dir = (T0::Dir, T1::Dir, T2::Dir, T3::Dir, T4::Dir, T5::Dir);
    type Model = (T0::Model, T1::Model, T2::Model, T3::Model, T4::Model, T5::Model);
    type SymModel = (T0::SymModel, T1::SymModel, T2::SymModel, T3::SymModel, T4::SymModel, T5::SymModel);
    type DirModel = (T0::DirModel, T1::DirModel, T2::DirModel, T3::DirModel, T4::DirModel, T5::DirModel);

    open spec fn model(&self) -> Self::Model {
        (self.0.model(), self.1.model(), self.2.model(), self.3.model(), self.4.model(), self.5.model())
    }

    open spec fn sym_model(sym: &Self::Sym) -> Self::SymModel {
        (T0::sym_model(&sym.0), T1::sym_model(&sym.1), T2::sym_model(&sym.2), T3::sym_model(&sym.3), T4::sym_model(&sym.4), T5::sym_model(&sym.5))
    }

    open spec fn dir_model(dir: &Self::Dir) -> Self::DirModel {
        (T0::dir_model(&dir.0), T1::dir_model(&dir.1), T2::dir_model(&dir.2), T3::dir_model(&dir.3), T4::dir_model(&dir.4), T5::dir_model(&dir.5))
    }

    open spec fn valid(m: Self::Model) -> bool {
        &&& T0::valid(m.0)
        &&& T1::valid(m.1)
        &&& T2::valid(m.2)
        &&& T3::valid(m.3)
        &&& T4::valid(m.4)
        &&& T5::valid(m.5)
    }

    open spec fn fits_sym(m: Self::Model, s: Self::SymModel) -> bool {
        &&& T0::fits_sym(m.0, s.0)
        &&& T1::fits_sym(m.1, s.1)
        &&& T2::fits_sym(m.2, s.2)
        &&& T3::fits_sym(m.3, s.3)
        &&& T4::fits_sym(m.4, s.4)
        &&& T5::fits_sym(m.5, s.5)
    }

    open spec fn fits_dir(m: Self::Model, d: Self::DirModel) -> bool {
        &&& T0::fits_dir(m.0, d.0)
        &&& T1::fits_dir(m.1, d.1)
        &&& T2::fits_dir(m.2, d.2)
        &&& T3::fits_dir(m.3, d.3)
        &&& T4::fits_dir(m.4, d.4)
        &&& T5::fits_dir(m.5, d.5)
    }

    open spec fn read_spec(m: Self::Model) -> Self::SymModel {
        (T0::read_spec(m.0), T1::read_spec(m.1), T2::read_spec(m.2), T3::read_spec(m.3), T4::read_spec(m.4), T5::read_spec(m.5))
    }

    open spec fn write_spec(m: Self::Model, s: Self::SymModel) -> Self::Model {
        (T0::write_spec(m.0, s.0), T1::write_spec(m.1, s.1), T2::write_spec(m.2, s.2), T3::write_spec(m.3, s.3), T4::write_spec(m.4, s.4), T5::write_spec(m.5, s.5))
    }

    open spec fn move_spec(m: Self::Model, d: Self::DirModel, def: Self::SymModel) -> Self::Model {
        (T0::move_spec(m.0, d.0, def.0), T1::move_spec(m.1, d.1, def.1), T2::move_spec(m.2, d.2, def.2), T3::move_spec(m.3, d.3, def.3), T4::move_spec(m.4, d.4, def.4), T5::move_spec(m.5, d.5, def.5))
    }

    proof fn lemma_read(m: Self::Model) {
        T0::lemma_read(m.0);
        T1::lemma_read(m.1);
        T2::lemma_read(m.2);
        T3::lemma_read(m.3);
        T4::lemma_read(m.4);
        T5::lemma_read(m.5);
    }

    proof fn lemma_write(m: Self::Model, s: Self::SymModel) {
        T0::lemma_write(m.0, s.0);
        T1::lemma_write(m.1, s.1);
        T2::lemma_write(m.2, s.2);
        T3::lemma_write(m.3, s.3);
        T4::lemma_write(m.4, s.4);
        T5::lemma_write(m.5, s.5);
    }

    proof fn lemma_move(m: Self::Model, d: Self::DirModel, def: Self::SymModel) {
        T0::lemma_move(m.0, d.0, def.0);
        T1::lemma_move(m.1, d.1, def.1);
        T2::lemma_move(m.2, d.2, def.2);
        T3::lemma_move(m.3, d.3, def.3);
        T4::lemma_move(m.4, d.4, def.4);
        T5::lemma_move(m.5, d.5, def.5);
    }

    fn read(&self) -> (r: Self::Sym) {
        (self.0.read(), self.1.read(), self.2.read(), self.3.read(), self.4.read(), self.5.read())
    }

    fn write(&mut self, sym: &Self::Sym) {
        self.0.write(&sym.0);
        self.1.write(&sym.1);
        self.2.write(&sym.2);
        self.3.write(&sym.3);
        self.4.write(&sym.4);
        self.5.write(&sym.5);
    }

    fn mov(&mut self, dir: &Self::Dir, def: &Self::Sym) {
        self.0.mov(&dir.0, &def.0);
        self.1.mov(&dir.1, &def.1);
        self.2.mov(&dir.2, &def.2);
        self.3.mov(&dir.3, &def.3);
        self.4.mov(&dir.4, &def.4);
        self.5.mov(&dir.5, &def.5);
    }

    fn sym_eq(a: &Self::Sym, b: &Self::Sym) -> (r: bool) {
        T0::sym_eq(&a.0, &b.0) && T1::sym_eq(&a.1, &b.1) && T2::sym_eq(&a.2, &b.2) && T3::sym_eq(&a.3, &b.3) && T4::sym_eq(&a.4, &b.4) && T5::sym_eq(&a.5, &b.5)
    }
}

impl<T0: Space, T1: Space, T2: Space, T3: Space, T4: Space, T5: Space, T6: Space> Space for (T0, T1, T2, T3, T4, T5, T6) {
    type Sym = (T0::Sym, T1::Sym, T2::Sym, T3::Sym, T4::Sym, T5::Sym, T6::Sym);
    type Dir = (T0::Dir, T1::Dir, T2::Dir, T3::Dir, T4::Dir, T5::Dir, T6::Dir);
    type Model = (T0::Model, T1::Model, T2::Model, T3::Model, T4::Model, T5::Model, T6::Model);
    type SymModel = (T0::SymModel, T1::SymModel, T2::SymModel, T3::SymModel, T4::SymModel, T5::SymModel, T6::SymModel);
    type DirModel = (T0::DirModel, T1::DirModel, T2::DirModel, T3::DirModel, T4::DirModel, T5::DirModel, T6::DirModel);

    open spec fn model(&self) -> Self::Model {
        (self.0.model(), self.1.model(), self.2.model(), self.3.model(), self.4.model(), self.5.model(), self.6.model())
    }

    open spec fn sym_model(sym: &Self::Sym) -> Self::SymModel {
        (T0::sym_model(&sym.0), T1::sym_model(&sym.1), T2::sym_model(&sym.2), T3::sym_model(&sym.3), T4::sym_model(&sym.4), T5::sym_model(&sym.5), T6::sym_model(&sym.6))
    }

    open spec fn dir_model(dir: &Self::Dir) -> Self::DirModel {
        (T0::dir_model(&dir.0), T1::dir_model(&dir.1), T2::dir_model(&dir.2), T3::dir_model(&dir.3), T4::dir_model(&dir.4), T5::dir_model(&dir.5), T6::dir_model(&dir.6))
    }

    open spec fn valid(m: Self::Model) -> bool {
        &&& T0::valid(m.0)
        &&& T1::valid(m.1)
        &&& T2::valid(m.2)
        &&& T3::valid(m.3)
        &&& T4::valid(m.4)
        &&& T5::valid(m.5)
        &&& T6::valid(m.6)
    }

    open spec fn fits_sym(m: Self::Model, s: Self::SymModel) -> bool {
        &&& T0::fits_sym(m.0, s.0)
        &&& T1::fits_sym(m.1, s.1)
        &&& T2::fits_sym(m.2, s.2)
        &&& T3::fits_sym(m.3, s.3)
        &&& T4::fits_sym(m.4, s.4)
        &&& T5::fits_sym(m.5, s.5)
        &&& T6::fits_sym(m.6, s.6)
    }

    open spec fn fits_dir(m: Self::Model, d: Self::DirModel) -> bool {
        &&& T0::fits_dir(m.0, d.0)
        &&& T1::fits_dir(m.1, d.1)
        &&& T2::fits_dir(m.2, d.2)
        &&& T3::fits_dir(m.3, d.3)
        &&& T4::fits_dir(m.4, d.4)
        &&& T5::fits_dir(m.5, d.5)
        &&& T6::fits_dir(m.6, d.6)
    }

    open spec fn read_spec(m: Self::Model) -> Self::SymModel {
        (T0::read_spec(m.0), T1::read_spec(m.1), T2::read_spec(m.2), T3::read_spec(m.3), T4::read_spec(m.4), T5::read_spec(m.5), T6::read_spec(m.6))
    }

    open spec fn write_spec(m: Self::Model, s: Self::SymModel) -> Self::Model {
        (T0::write_spec(m.0, s.0), T1::write_spec(m.1, s.1), T2::write_spec(m.2, s.2), T3::write_spec(m.3, s.3), T4::write_spec(m.4, s.4), T5::write_spec(m.5, s.5), T6::write_spec(m.6, s.6))
    }

    open spec fn move_spec(m: Self::Model, d: Self::DirModel, def: Self::SymModel) -> Self::Model {
        (T0::move_spec(m.0, d.0, def.0), T1::move_spec(m.1, d.1, def.1), T2::move_spec(m.2, d.2, def.2), T3::move_spec(m.3, d.3, def.3), T4::move_spec(m.4, d.4, def.4), T5::move_spec(m.5, d.5, def.5), T6::move_spec(m.6, d.6, def.6))
    }

    proof fn lemma_read(m: Self::Model) {
        T0::lemma_read(m.0);
        T1::lemma_read(m.1);
        T2::lemma_read(m.2);
        T3::lemma_read(m.3);
        T4::lemma_read(m.4);
        T5::lemma_read(m.5);
        T6::lemma_read(m.6);
    }

    proof fn lemma_write(m: Self::Model, s: Self::SymModel) {
        T0::lemma_write(m.0, s.0);
        T1::lemma_write(m.1, s.1);
        T2::lemma_write(m.2, s.2);
        T3::lemma_write(m.3, s.3);
        T4::lemma_write(m.4, s.4);
        T5::lemma_write(m.5, s.5);
        T6::lemma_write(m.6, s.6);
    }

    proof fn lemma_move(m: Self::Model, d: Self::DirModel, def: Self::SymModel) {
        T0::lemma_move(m.0, d.0, def.0);
        T1::lemma_move(m.1, d.1, def.1);
        T2::lemma_move(m.2, d.2, def.2);
        T3::lemma_move(m.3, d.3, def.3);
        T4::lemma_move(m.4, d.4, def.4);
        T5::lemma_move(m.5, d.5, def.5);
        T6::lemma_move(m.6, d.6, def.6);
    }

    fn read(&self) -> (r: Self::Sym) {
        (self.0.read(), self.1.read(), self.2.read(), self.3.read(), self.4.read(), self.5.read(), self.6.read())
    }

    fn write(&mut self, sym: &Self::Sym) {
        self.0.write(&sym.0);
        self.1.write(&sym.1);
        self.2.write(&sym.2);
        self.3.write(&sym.3);
        self.4.write(&sym.4);
        self.5.write(&sym.5);
        self.6.write(&sym.6);
    }

    fn mov(&mut self, dir: &Self::Dir, def: &Self::Sym) {
        self.0.mov(&dir.0, &def.0);
        self.1.mov(&dir.1, &def.1);
        self.2.mov(&dir.2, &def.2);
        self.3.mov(&dir.3, &def.3);
        self.4.mov(&dir.4, &def.4);
        self.5.mov(&dir.5, &def.5);
        self.6.mov(&dir.6, &def.6);
    }

    fn sym_eq(a: &Self::Sym, b: &Self::Sym) -> (r: bool) {
        T0::sym_eq(&a.0, &b.0) && T1::sym_eq(&a.1, &b.1) && T2::sym_eq(&a.2, &b.2) && T3::sym_eq(&a.3, &b.3) && T4::sym_eq(&a.4, &b.4) && T5::sym_eq(&a.5, &b.5) && T6::sym_eq(&a.6, &b.6)
    }
}

impl<T0: Space, T1: Space, T2: Space, T3: Space, T4: Space, T5: Space, T6: Space, T7: Space> Space for (T0, T1, T2, T3, T4, T5, T6, T7) {
    type Sym = (T0::Sym, T1::Sym, T2::Sym, T3::Sym, T4::Sym, T5::Sym, T6::Sym, T7::Sym);
    type Dir = (T0::Dir, T1::Dir, T2::Dir, T3::Dir, T4::Dir, T5::Dir, T6::Dir, T7::Dir);
    type Model = (T0::Model, T1::Model, T2::Model, T3::Model, T4::Model, T5::Model, T6::Model, T7::Model);
    type SymModel = (T0::SymModel, T1::SymModel, T2::SymModel, T3::SymModel, T4::SymModel, T5::SymModel, T6::SymModel, T7::SymModel);
    type DirModel = (T0::DirModel, T1::DirModel, T2::DirModel, T3::DirModel, T4::DirModel, T5::DirModel, T6::DirModel, T7::DirModel);

    open spec fn model(&self) -> Self::Model {
        (self.0.model(), self.1.model(), self.2.model(), self.3.model(), self.4.model(), self.5.model(), self.6.model(), self.7.model())
    }

    open spec fn sym_model(sym: &Self::Sym) -> Self::SymModel {
        (T0::sym_model(&sym.0), T1::sym_model(&sym.1), T2::sym_model(&sym.2), T3::sym_model(&sym.3), T4::sym_model(&sym.4), T5::sym_model(&sym.5), T6::sym_model(&sym.6), T7::sym_model(&sym.7))
    }

    open spec fn dir_model(dir: &Self::Dir) -> Self::DirModel {
        (T0::dir_model(&dir.0), T1::dir_model(&dir.1), T2::dir_model(&dir.2), T3::dir_model(&dir.3), T4::dir_model(&dir.4), T5::dir_model(&dir.5), T6::dir_model(&dir.6), T7::dir_model(&dir.7))
    }

    open spec fn valid(m: Self::Model) -> bool {
        &&& T0::valid(m.0)
        &&& T1::valid(m.1)
        &&& T2::valid(m.2)
        &&& T3::valid(m.3)
        &&& T4::valid(m.4)
        &&& T5::valid(m.5)
        &&& T6::valid(m.6)
        &&& T7::valid(m.7)
    }

    open spec fn fits_sym(m: Self::Model, s: Self::SymModel) -> bool {
        &&& T0::fits_sym(m.0, s.0)
        &&& T1::fits_sym(m.1, s.1)
        &&& T2::fits_sym(m.2, s.2)
        &&& T3::fits_sym(m.3, s.3)
        &&& T4::fits_sym(m.4, s.4)
        &&& T5::fits_sym(m.5, s.5)
        &&& T6::fits_sym(m.6, s.6)
        &&& T7::fits_sym(m.7, s.7)
    }

    open spec fn fits_dir(m: Self::Model, d: Self::DirModel) -> bool {
        &&& T0::fits_dir(m.0, d.0)
        &&& T1::fits_dir(m.1, d.1)
        &&& T2::fits_dir(m.2, d.2)
        &&& T3::fits_dir(m.3, d.3)
        &&& T4::fits_dir(m.4, d.4)
        &&& T5::fits_dir(m.5, d.5)
        &&& T6::fits_dir(m.6, d.6)
        &&& T7::fits_dir(m.7, d.7)
    }

    open spec fn read_spec(m: Self::Model) -> Self::SymModel {
        (T0::read_spec(m.0), T1::read_spec(m.1), T2::read_spec(m.2), T3::read_spec(m.3), T4::read_spec(m.4), T5::read_spec(m.5), T6::read_spec(m.6), T7::read_spec(m.7))
    }

    open spec fn write_spec(m: Self::Model, s: Self::SymModel) -> Self::Model {
        (T0::write_spec(m.0, s.0), T1::write_spec(m.1, s.1), T2::write_spec(m.2, s.2), T3::write_spec(m.3, s.3), T4::write_spec(m.4, s.4), T5::write_spec(m.5, s.5), T6::write_spec(m.6, s.6), T7::write_spec(m.7, s.7))
    }

    open spec fn move_spec(m: Self::Model, d: Self::DirModel, def: Self::SymModel) -> Self::Model {
        (T0::move_spec(m.0, d.0, def.0), T1::move_spec(m.1, d.1, def.1), T2::move_spec(m.2, d.2, def.2), T3::move_spec(m.3, d.3, def.3), T4::move_spec(m.4, d.4, def.4), T5::move_spec(m.5, d.5, def.5), T6::move_spec(m.6, d.6, def.6), T7::move_spec(m.7, d.7, def.7))
    }

    proof fn lemma_read(m: Self::Model) {
        T0::lemma_read(m.0);
        T1::lemma_read(m.1);
        T2::lemma_read(m.2);
        T3::lemma_read(m.3);
        T4::lemma_read(m.4);
        T5::lemma_read(m.5);
        T6::lemma_read(m.6);
        T7::lemma_read(m.7);
    }

    proof fn lemma_write(m: Self::Model, s: Self::SymModel) {
        T0::lemma_write(m.0, s.0);
        T1::lemma_write(m.1, s.1);
        T2::lemma_write(m.2, s.2);
        T3::lemma_write(m.3, s.3);
        T4::lemma_write(m.4, s.4);
        T5::lemma_write(m.5, s.5);
        T6::lemma_write(m.6, s.6);
        T7::lemma_write(m.7, s.7);
    }

    proof fn lemma_move(m: Self::Model, d: Self::DirModel, def: Self::SymModel) {
        T0::lemma_move(m.0, d.0, def.0);
        T1::lemma_move(m.1, d.1, def.1);
        T2::lemma_move(m.2, d.2, def.2);
        T3::lemma_move(m.3, d.3, def.3);
        T4::lemma_move(m.4, d.4, def.4);
        T5::lemma_move(m.5, d.5, def.5);
        T6::lemma_move(m.6, d.6, def.6);
        T7::lemma_move(m.7, d.7, def.7);
    }

    fn read(&self) -> (r: Self::Sym) {
        (self.0.read(), self.1.read(), self.2.read(), self.3.read(), self.4.read(), self.5.read(), self.6.read(), self.7.read())
    }

    fn write(&mut self, sym: &Self::Sym) {
        self.0.write(&sym.0);
        self.1.write(&sym.1);
        self.2.write(&sym.2);
        self.3.write(&sym.3);
        self.4.write(&sym.4);
        self.5.write(&sym.5);
        self.6.write(&sym.6);
        self.7.write(&sym.7);
    }

    fn mov(&mut self, dir: &Self::Dir, def: &Self::Sym) {
        self.0.mov(&dir.0, &def.0);
        self.1.mov(&dir.1, &def.1);
        self.2.mov(&dir.2, &def.2);
        self.3.mov(&dir.3, &def.3);
        self.4.mov(&dir.4, &def.4);
        self.5.mov(&dir.5, &def.5);
        self.6.mov(&dir.6, &def.6);
        self.7.mov(&dir.7, &def.7);
    }

    fn sym_eq(a: &Self::Sym, b: &Self::Sym) -> (r: bool) {
        T0::sym_eq(&a.0, &b.0) && T1::sym_eq(&a.1, &b.1) && T2::sym_eq(&a.2, &b.2) && T3::sym_eq(&a.3, &b.3) && T4::sym_eq(&a.4, &b.4) && T5::sym_eq(&a.5, &b.5) && T6::sym_eq(&a.6, &b.6) && T7::sym_eq(&a.7, &b.7)
    }
}

} // verus!
