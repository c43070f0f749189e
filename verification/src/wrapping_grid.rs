use crate::grid::{Coordinates, Grid};
use vstd::arithmetic::div_mod::{
    lemma_fundamental_div_mod, lemma_fundamental_div_mod_converse, lemma_mod_add_multiples_vanish,
    lemma_mod_division_less_than_divisor, lemma_mod_multiples_basic, lemma_mod_self_0,
    lemma_small_mod,
};
use vstd::prelude::*;

verus! {

/// The non-negative (Euclidean) modulo: for a positive modulus `m` the
/// result always lies in `[0, m)`, for any magnitude or sign of `c`.
pub open spec fn wrap(c: int, m: int) -> int
    recommends
        m > 0,
{
    c % m
}

/// A toroidal view of a grid: arbitrary signed coordinates are wrapped into
/// the valid range with the Euclidean modulo, so indexing past one edge
/// re-enters from the opposite edge. All other operations delegate to the
/// inner grid.
#[derive(Clone)]
pub struct WrappingGrid<T>(Grid<T>);

impl<T> View for WrappingGrid<T> {
    type V = Seq<T>;

    /// The elements of the inner grid in storage (row-major) order.
    open spec fn view(&self) -> Seq<T> {
        self.spec_inner()@
    }
}

impl<T> WrappingGrid<T> {
    /// The wrapped grid itself.
    pub closed spec fn spec_inner(&self) -> Grid<T> {
        self.0
    }

    /// Number of columns, as a mathematical integer.
    pub open spec fn spec_width(&self) -> int {
        self.spec_inner().spec_width()
    }

    /// Number of rows, as a mathematical integer.
    pub open spec fn spec_height(&self) -> int {
        self.spec_inner().spec_height()
    }

    /// Well-formed: the inner grid is well-formed and has no zero extent,
    /// so wrapping by the extents is defined.
    pub open spec fn wf(&self) -> bool {
        &&& self.spec_inner().wf()
        &&& self.spec_width() > 0
        &&& self.spec_height() > 0
    }

    /// The element stored at valid column `x`, row `y` of the inner grid.
    pub open spec fn cell(&self, x: int, y: int) -> T {
        self.spec_inner().cell(x, y)
    }

    /// The element that signed coordinates `(x, y)` reach after wrapping.
    pub open spec fn wrapped_cell(&self, x: int, y: int) -> T {
        self.cell(wrap(x, self.spec_width()), wrap(y, self.spec_height()))
    }

    /// Wrap an existing grid. A grid with a zero extent cannot be wrapped:
    /// there is no coordinate the modulo could land on.
    pub fn new(grid: Grid<T>) -> (r: WrappingGrid<T>)
        requires
            grid.wf(),
            grid.spec_width() > 0,
            grid.spec_height() > 0,
        ensures
            r.wf(),
            r.spec_inner() == grid,
    {
        WrappingGrid(grid)
    }

    /// Extract the inner grid.
    pub fn inner(self) -> (g: Grid<T>)
        ensures
            g == self.spec_inner(),
    {
        self.0
    }

    /// Returns the width of the inner grid.
    pub fn width(&self) -> (r: usize)
        ensures
            r == self.spec_width(),
    {
        self.0.width()
    }

    /// Returns the height of the inner grid.
    pub fn height(&self) -> (r: usize)
        ensures
            r == self.spec_height(),
    {
        self.0.height()
    }

    /// Returns the elements of the inner grid in storage (row-major) order.
    pub fn iter(&self) -> (r: std::slice::Iter<'_, T>)
        ensures
            vstd::std_specs::slice::into_iter_elts(r) == self@,
    {
        self.0.iter()
    }

    /// Mutable access to the elements of the inner grid in storage
    /// (row-major) order.
    pub fn iter_mut(&mut self) -> (r: &mut Vec<T>)
        ensures
            (*r)@ == old(self)@,
            final(self)@ == (*final(r))@,
            final(self).spec_width() == old(self).spec_width(),
            final(self).spec_height() == old(self).spec_height(),
    {
        self.0.iter_mut()
    }

    /// Return an iterator over the coordinates of the inner grid, in
    /// row-major order.
    pub fn coordinates(&self) -> (r: Coordinates)
        requires
            self.wf(),
        ensures
            r.wf(),
            r.spec_width() == self.spec_width(),
            r.spec_height() == self.spec_height(),
            r.pos() == 0,
    {
        self.0.coordinates()
    }

    /// Signed-coordinate read access: wraps both coordinates into the valid
    /// range, then reads the inner grid. Never fails on a well-formed
    /// wrapping grid.
    pub fn index(&self, x: i32, y: i32) -> (r: &T)
        requires
            self.wf(),
        ensures
            *r == self.wrapped_cell(x as int, y as int),
    {
        let wx = wrap_coord(x, self.0.width());
        let wy = wrap_coord(y, self.0.height());
        self.0.index(wx, wy)
    }

    /// Signed-coordinate write access: wraps both coordinates into the
    /// valid range, then hands out a mutable reference into the inner grid.
    pub fn index_mut(&mut self, x: i32, y: i32) -> (r: &mut T)
        requires
            old(self).wf(),
        ensures
            *r == old(self).wrapped_cell(x as int, y as int),
            final(self).wf(),
            final(self).spec_width() == old(self).spec_width(),
            final(self).spec_height() == old(self).spec_height(),
            final(self)@ == old(self)@.update(
                wrap(x as int, old(self).spec_width()) + wrap(y as int, old(self).spec_height())
                    * old(self).spec_width(),
                *final(r),
            ),
    {
        let wx = wrap_coord(x, self.0.width());
        let wy = wrap_coord(y, self.0.height());
        self.0.index_mut(wx, wy)
    }
}

/// Wrap one signed coordinate into `[0, m)` by the Euclidean modulo.
fn wrap_coord(c: i32, m: usize) -> (r: usize)
    requires
        m > 0,
    ensures
        r == wrap(c as int, m as int),
        r < m,
{
    proof {
        lemma_mod_division_less_than_divisor(c as int, m as int);
    }
    if c >= 0 {
        (c as usize) % m
    } else {
        let neg = (-(c as i64)) as usize;
        let rem = neg % m;
        proof {
            lemma_euclid_mod_of_negative(c as int, neg as int, m as int);
        }
        if rem == 0 {
            0
        } else {
            m - rem
        }
    }
}

/// For a negative `c` with magnitude `n`, the Euclidean modulo `c % m` is
/// `0` when `n % m == 0`, and `m - n % m` otherwise.
proof fn lemma_euclid_mod_of_negative(c: int, n: int, m: int)
    requires
        c < 0,
        n == -c,
        m > 0,
    ensures
        n % m == 0 ==> c % m == 0,
        n % m != 0 ==> c % m == m - n % m,
{
    lemma_fundamental_div_mod(n, m);
    lemma_mod_division_less_than_divisor(n, m);
    let q = n / m;
    let s = n % m;
    assert(n == m * q + s);
    if s == 0 {
        assert((-q) * m + 0 == c) by (nonlinear_arith)
            requires
                n == m * q + s,
                s == 0,
                c == -n,
        ;
        lemma_fundamental_div_mod_converse(c, m, -q, 0);
    } else {
        assert((-q - 1) * m + (m - s) == c) by (nonlinear_arith)
            requires
                n == m * q + s,
                c == -n,
        ;
        lemma_fundamental_div_mod_converse(c, m, -q - 1, m - s);
    }
}

/// The toroidal wrap laws: one step past an edge re-enters from the
/// opposite edge, and offsets by whole multiples of an extent return to the
/// same coordinate. With extent `m`: `-1` wraps to `m - 1`, while `m`,
/// `2 * m` and `-m` all wrap to `0`; wrapping is periodic with period `m`;
/// and a coordinate already in range is left as it is.
pub proof fn lemma_wrap_laws(m: int)
    requires
        m > 0,
    ensures
        wrap(-1, m) == m - 1,
        wrap(m, m) == 0,
        wrap(2 * m, m) == 0,
        wrap(-m, m) == 0,
        forall|c: int| #[trigger] wrap(c + m, m) == wrap(c, m),
        forall|c: int| 0 <= c < m ==> #[trigger] wrap(c, m) == c,
{
    lemma_mod_self_0(m);
    lemma_mod_multiples_basic(2, m);
    lemma_mod_multiples_basic(-1, m);
    lemma_mod_add_multiples_vanish(-1, m);
    lemma_small_mod((m - 1) as nat, m as nat);
    assert forall|c: int| #[trigger] wrap(c + m, m) == wrap(c, m) by {
        lemma_mod_add_multiples_vanish(c, m);
    }
    assert forall|c: int| 0 <= c < m implies #[trigger] wrap(c, m) == c by {
        lemma_small_mod(c as nat, m as nat);
    }
}

/// The wrap laws read back at the cells of a wrapping grid: stepping one
/// column past either vertical edge, or one row past either horizontal
/// edge, reaches the cell on the opposite edge, and offsets by whole grid
/// extents reach the same cell.
pub proof fn lemma_wrapped_cell_laws<T>(g: WrappingGrid<T>)
    requires
        g.wf(),
    ensures
        g.wrapped_cell(-1, 0) == g.cell(g.spec_width() - 1, 0),
        g.wrapped_cell(g.spec_width(), 0) == g.cell(0, 0),
        g.wrapped_cell(2 * g.spec_width(), 0) == g.cell(0, 0),
        g.wrapped_cell(-g.spec_width(), 0) == g.cell(0, 0),
        g.wrapped_cell(0, -1) == g.cell(0, g.spec_height() - 1),
        g.wrapped_cell(0, g.spec_height()) == g.cell(0, 0),
        g.wrapped_cell(0, 2 * g.spec_height()) == g.cell(0, 0),
        g.wrapped_cell(0, -g.spec_height()) == g.cell(0, 0),
{
    lemma_wrap_laws(g.spec_width());
    lemma_wrap_laws(g.spec_height());
}

} // verus!
