use vstd::arithmetic::div_mod::{
    lemma_fundamental_div_mod, lemma_fundamental_div_mod_converse, lemma_mod_division_less_than_divisor,
};
use vstd::arithmetic::mul::{lemma_mul_is_commutative, lemma_mul_is_distributive_add_other_way};
use vstd::prelude::*;

verus! {

/// Fixed-size dense 2D array with row-major linear storage: the element at
/// column `x`, row `y` sits at linear index `x + y * width`, so the
/// x-coordinate varies fastest.
#[derive(Clone)]
pub struct Grid<T> {
    width: usize,
    height: usize,
    data: Vec<T>,
}

impl<T> View for Grid<T> {
    type V = Seq<T>;

    /// The elements in storage (row-major) order.
    closed spec fn view(&self) -> Seq<T> {
        self.data@
    }
}

impl<T> Grid<T> {
    /// Number of columns, as a mathematical integer.
    pub closed spec fn spec_width(&self) -> int {
        self.width as int
    }

    /// Number of rows, as a mathematical integer.
    pub closed spec fn spec_height(&self) -> int {
        self.height as int
    }

    /// Well-formed: the storage holds exactly `width * height` elements
    /// (which therefore fit in a `usize` count).
    pub open spec fn wf(&self) -> bool {
        &&& self@.len() == self.spec_width() * self.spec_height()
        &&& self.spec_width() * self.spec_height() <= usize::MAX
    }

    /// The element stored at column `x`, row `y`.
    pub open spec fn cell(&self, x: int, y: int) -> T {
        self@[x + y * self.spec_width()]
    }

    /// Construct a new grid filled with a specified element.
    pub fn from_elem(width: usize, height: usize, elem: T) -> (g: Grid<T>) where T: Copy
        requires
            width * height <= usize::MAX,
        ensures
            g.wf(),
            g.spec_width() == width,
            g.spec_height() == height,
            forall|i: int| 0 <= i < width * height ==> g@[i] == elem,
    {
        let n = width * height;
        let mut data: Vec<T> = Vec::new();
        let mut k: usize = 0;
        while k < n
            invariant
                k <= n,
                data@.len() == k,
                forall|i: int| 0 <= i < k ==> data@[i] == elem,
            decreases n - k,
        {
            data.push(elem);
            k = k + 1;
        }
        Grid { width, height, data }
    }

    /// Construct a new grid filled with values specified by a generating
    /// function: the cell at `(x, y)` holds a result of `f(x, y)`, and `f`
    /// is called once per cell in row-major order.
    pub fn from_fn<F: Fn(usize, usize) -> T>(width: usize, height: usize, f: F) -> (g: Grid<T>)
        requires
            width * height <= usize::MAX,
            forall|x: usize, y: usize| x < width && y < height ==> call_requires(f, (x, y)),
        ensures
            g.wf(),
            g.spec_width() == width,
            g.spec_height() == height,
            forall|i: int|
                0 <= i < width * height ==> call_ensures(
                    f,
                    (((i % (width as int)) as usize), ((i / (width as int)) as usize)),
                    #[trigger] g@[i],
                ),
    {
        let n = width * height;
        let mut data: Vec<T> = Vec::new();
        let mut k: usize = 0;
        while k < n
            invariant
                k <= n,
                n == width * height,
                n <= usize::MAX,
                data@.len() == k,
                forall|x: usize, y: usize| x < width && y < height ==> call_requires(f, (x, y)),
                forall|i: int|
                    0 <= i < k ==> call_ensures(
                        f,
                        (((i % (width as int)) as usize), ((i / (width as int)) as usize)),
                        #[trigger] data@[i],
                    ),
            decreases n - k,
        {
            proof {
                lemma_positive_total_gives_positive_width(width as int, height as int, k as int);
                lemma_mod_division_less_than_divisor(k as int, width as int);
                lemma_linear_to_coords_in_range(k as int, width as int, height as int);
            }
            let x = k % width;
            let y = k / width;
            data.push(f(x, y));
            k = k + 1;
        }
        Grid { width, height, data }
    }

    /// Returns the height of the grid.
    pub fn height(&self) -> (r: usize)
        ensures
            r == self.spec_height(),
    {
        self.height
    }

    /// Returns the width of the grid.
    pub fn width(&self) -> (r: usize)
        ensures
            r == self.spec_width(),
    {
        self.width
    }

    /// Bounds-checked read access: the element at column `x`, row `y`.
    pub fn index(&self, x: usize, y: usize) -> (r: &T)
        requires
            self.wf(),
            x < self.spec_width(),
            y < self.spec_height(),
        ensures
            *r == self.cell(x as int, y as int),
    {
        proof {
            lemma_row_major_index_bound(x as int, y as int, self.spec_width(), self.spec_height());
        }
        &self.data[x + y * self.width]
    }

    /// Bounds-checked write access: a mutable reference to the element at
    /// column `x`, row `y`. Writing through the reference changes that cell
    /// and no other, and leaves the dimensions unchanged.
    pub fn index_mut(&mut self, x: usize, y: usize) -> (r: &mut T)
        requires
            old(self).wf(),
            x < old(self).spec_width(),
            y < old(self).spec_height(),
        ensures
            *r == old(self).cell(x as int, y as int),
            final(self).wf(),
            final(self).spec_width() == old(self).spec_width(),
            final(self).spec_height() == old(self).spec_height(),
            final(self)@ == old(self)@.update(x + y * old(self).spec_width(), *final(r)),
    {
        proof {
            lemma_row_major_index_bound(x as int, y as int, self.spec_width(), self.spec_height());
        }
        let i = x + y * self.width;
        &mut self.data[i]
    }

    /// Returns the elements of the grid in storage (row-major) order, as an
    /// iterator over references.
    pub fn iter(&self) -> (r: std::slice::Iter<'_, T>)
        ensures
            vstd::std_specs::slice::into_iter_elts(r) == self@,
    {
        proof {
            broadcast use vstd::std_specs::slice::axiom_spec_slice_iter;
        }
        let s = self.data.as_slice();
        let r = s.iter();
        proof {
            assert(vstd::std_specs::slice::into_iter_elts(r) =~= self.data@);
        }
        r
    }

    /// Mutable access to the elements in storage (row-major) order. The
    /// returned vector is the grid's storage itself: replacing elements is
    /// fine, while changing its length breaks well-formedness.
    pub fn iter_mut(&mut self) -> (r: &mut Vec<T>)
        ensures
            (*r)@ == old(self)@,
            final(self)@ == (*final(r))@,
            final(self).spec_width() == old(self).spec_width(),
            final(self).spec_height() == old(self).spec_height(),
    {
        &mut self.data
    }

    /// Return an iterator over the coordinates of the grid, in row-major
    /// order.
    pub fn coordinates(&self) -> (r: Coordinates)
        requires
            self.wf(),
        ensures
            r.wf(),
            r.spec_width() == self.spec_width(),
            r.spec_height() == self.spec_height(),
            r.pos() == 0,
    {
        Coordinates { width: self.width, height: self.height, x: 0, y: 0 }
    }
}

/// A finite traversal of the coordinate pairs of a `width x height` grid in
/// row-major order: all `x` for `y = 0`, then all `x` for `y = 1`, and so on.
pub struct Coordinates {
    width: usize,
    height: usize,
    x: usize,
    y: usize,
}

impl Coordinates {
    /// Number of columns, as a mathematical integer.
    pub closed spec fn spec_width(&self) -> int {
        self.width as int
    }

    /// Number of rows, as a mathematical integer.
    pub closed spec fn spec_height(&self) -> int {
        self.height as int
    }

    /// Linear position of the traversal: how many pairs were already
    /// produced.
    pub closed spec fn pos(&self) -> int {
        self.x + self.y * self.width
    }

    /// Total number of pairs the traversal produces.
    pub open spec fn total(&self) -> int {
        self.spec_width() * self.spec_height()
    }

    /// Well-formed: the position stays within the grid until the traversal
    /// is exhausted.
    pub closed spec fn wf(&self) -> bool {
        &&& self.width * self.height <= usize::MAX
        &&& if self.width == 0 || self.height == 0 {
            self.x == 0 && self.y == 0
        } else {
            self.x < self.width && (self.y < self.height || (self.y == self.height && self.x == 0))
        }
    }

    /// Produce the next coordinate pair, or `None` once all `width * height`
    /// pairs were produced. The pair produced at linear position `p` is
    /// `(p % width, p / width)`.
    pub fn next(&mut self) -> (r: Option<(usize, usize)>)
        requires
            old(self).wf(),
        ensures
            final(self).wf(),
            final(self).spec_width() == old(self).spec_width(),
            final(self).spec_height() == old(self).spec_height(),
            old(self).pos() < old(self).total() ==> r == Some(
                (
                    ((old(self).pos() % old(self).spec_width()) as usize),
                    ((old(self).pos() / old(self).spec_width()) as usize),
                ),
            ) && final(self).pos() == old(self).pos() + 1,
            old(self).pos() >= old(self).total() ==> r is None && final(self).pos() == old(
                self,
            ).pos(),
    {
        if self.width == 0 || self.height == 0 {
            proof {
                lemma_mul_is_commutative(self.spec_width(), self.spec_height());
            }
            return None;
        }
        if self.y >= self.height {
            proof {
                lemma_mul_is_commutative(self.spec_width(), self.spec_height());
            }
            return None;
        }
        let rx = self.x;
        let ry = self.y;
        proof {
            lemma_row_major_index_bound(rx as int, ry as int, self.spec_width(), self.spec_height());
            lemma_fundamental_div_mod_converse(
                rx + ry * self.spec_width(),
                self.spec_width(),
                ry as int,
                rx as int,
            );
        }
        self.x = self.x + 1;
        if self.x == self.width {
            self.x = 0;
            self.y = self.y + 1;
            proof {
                lemma_mul_is_distributive_add_other_way(self.spec_width(), ry as int, 1);
                lemma_mul_is_commutative(self.spec_width(), self.spec_height());
            }
        }
        Some((rx, ry))
    }

    /// Exact remaining-count hint: how many pairs are still to come, both as
    /// the lower and the upper bound.
    pub fn size_hint(&self) -> (r: (usize, Option<usize>))
        requires
            self.wf(),
        ensures
            r.0 == self.total() - self.pos(),
            r.1 == Some(r.0),
    {
        proof {
            if self.width > 0 && self.height > 0 {
                lemma_row_major_index_bound(
                    self.x as int,
                    self.y as int,
                    self.spec_width(),
                    self.spec_height(),
                );
                lemma_mul_is_commutative(self.spec_width(), self.spec_height());
            } else {
                lemma_mul_is_commutative(self.spec_width(), self.spec_height());
            }
        }
        let size = self.width * self.height - self.x - self.width * self.y;
        (size, Some(size))
    }
}

/// Row-major addressing stays inside the storage: a valid coordinate pair
/// maps to a linear index below `w * h`.
proof fn lemma_row_major_index_bound(x: int, y: int, w: int, h: int)
    by (nonlinear_arith)
    requires
        0 <= x < w,
        0 <= y <= h,
        y == h ==> x == 0,
    ensures
        0 <= x + y * w <= w * h,
        y < h ==> x + y * w < w * h,
{
}

/// Row-major addressing is injective on valid coordinate pairs.
proof fn lemma_row_major_index_injective(x1: int, y1: int, x2: int, y2: int, w: int, h: int)
    requires
        0 <= x1 < w,
        0 <= y1 < h,
        0 <= x2 < w,
        0 <= y2 < h,
        x1 + y1 * w == x2 + y2 * w,
    ensures
        x1 == x2,
        y1 == y2,
{
    let i = x1 + y1 * w;
    lemma_fundamental_div_mod_converse(i, w, y1, x1);
    lemma_fundamental_div_mod_converse(i, w, y2, x2);
}

/// A linear index strictly below `w * h` can only exist when `w` itself is
/// positive.
proof fn lemma_positive_total_gives_positive_width(w: int, h: int, k: int)
    by (nonlinear_arith)
    requires
        0 <= k < w * h,
        0 <= w,
        0 <= h,
    ensures
        0 < w,
        0 < h,
{
}

/// Splitting a linear index below `w * h` into `(i % w, i / w)` lands on a
/// valid coordinate pair.
proof fn lemma_linear_to_coords_in_range(i: int, w: int, h: int)
    by (nonlinear_arith)
    requires
        0 <= i < w * h,
        0 < w,
    ensures
        0 <= i % w < w,
        0 <= i / w < h,
{
}

/// The coordinate traversal is index-aligned with the storage order: the
/// pair produced at linear position `i` is `(i % width, i / width)`, and the
/// grid element stored at that pair is the `i`-th element of the storage.
pub proof fn lemma_coordinates_row_major<T>(g: Grid<T>, i: int)
    requires
        g.wf(),
        0 <= i < g.spec_width() * g.spec_height(),
    ensures
        0 <= i % g.spec_width() < g.spec_width(),
        0 <= i / g.spec_width() < g.spec_height(),
        g.cell(i % g.spec_width(), i / g.spec_width()) == g@[i],
{
    let w = g.spec_width();
    let h = g.spec_height();
    lemma_positive_total_gives_positive_width(w, h, i);
    lemma_linear_to_coords_in_range(i, w, h);
    lemma_fundamental_div_mod(i, w);
    lemma_mul_is_commutative(w, i / w);
}

/// Writing a cell and reading it back returns the written value, and every
/// other cell is unchanged. The hypothesis is exactly the storage-level
/// effect of a write through `index_mut`.
pub proof fn lemma_write_then_read<T>(g1: Grid<T>, g2: Grid<T>, x: int, y: int, v: T)
    requires
        g1.wf(),
        0 <= x < g1.spec_width(),
        0 <= y < g1.spec_height(),
        g2.spec_width() == g1.spec_width(),
        g2.spec_height() == g1.spec_height(),
        g2@ == g1@.update(x + y * g1.spec_width(), v),
    ensures
        g2.wf(),
        g2.cell(x, y) == v,
        forall|x2: int, y2: int|
            0 <= x2 < g1.spec_width() && 0 <= y2 < g1.spec_height() && !(x2 == x && y2 == y)
                ==> g2.cell(x2, y2) == g1.cell(x2, y2),
{
    let w = g1.spec_width();
    let h = g1.spec_height();
    lemma_row_major_index_bound(x, y, w, h);
    assert forall|x2: int, y2: int|
        0 <= x2 < w && 0 <= y2 < h && !(x2 == x && y2 == y) implies g2.cell(x2, y2) == g1.cell(
        x2,
        y2,
    ) by {
        lemma_row_major_index_bound(x2, y2, w, h);
        if x2 + y2 * w == x + y * w {
            lemma_row_major_index_injective(x, y, x2, y2, w, h);
        }
    }
}

} // verus!
