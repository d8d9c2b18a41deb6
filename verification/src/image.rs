//! A row-major pixel buffer. A first-level index picks a row and returns a
//! view of exactly `width` contiguous pixels; the second level is the
//! view's own indexing, which is how `image[row][col]` reaches one pixel
//! without any two-argument indexing operation.

use vstd::prelude::*;
use vstd::slice::{slice_subrange, SliceAdditionalExecFns};

verus! {

/// A flat buffer of `width * height` pixels; row `r` occupies the positions
/// `r * width` up to `(r + 1) * width`.
pub struct Image<P> {
    width: usize,
    pixels: Vec<P>,
}

impl<P> View for Image<P> {
    type V = Seq<P>;

    closed spec fn view(&self) -> Seq<P> {
        self.pixels@
    }
}

/// Relies on `Vec`'s mutable range-indexing, `&mut v[i..j]`: the returned
/// view borrows exactly the elements from `i` up to `j`, its length cannot
/// change, and writes through it land at the same positions of the vector,
/// which keeps every element outside the range as it was.
#[verifier::external_body]
fn vec_range_mut<'a, P>(v: &'a mut Vec<P>, i: usize, j: usize) -> (r: &'a mut [P])
    requires
        i <= j,
        j <= old(v)@.len(),
    ensures
        r@ == old(v)@.subrange(i as int, j as int),
        final(r)@.len() == r@.len(),
        final(v)@ == old(v)@.subrange(0, i as int) + final(r)@ + old(v)@.subrange(
            j as int,
            old(v)@.len() as int,
        ),
{
    &mut v[i..j]
}

impl<P: Default + Copy> Image<P> {
    /// A fresh image of `width * height` pixels, all holding one and the
    /// same value: the one the component type's `Default` returned.
    pub fn new(width: usize, height: usize) -> (img: Image<P>)
        requires
            width * height <= usize::MAX,
        ensures
            img.spec_width() == width,
            img@.len() == width * height,
            exists|d: P|
                #[trigger] call_ensures(P::default, (), d) && img@ =~= Seq::new(
                    (width * height) as nat,
                    |k: int| d,
                ),
    {
        let d = P::default();
        let n = width * height;
        let mut pixels: Vec<P> = Vec::new();
        let mut i: usize = 0;
        while i < n
            invariant
                i <= n,
                pixels@.len() == i,
                forall|k: int| 0 <= k < i ==> pixels@[k] == d,
            decreases n - i,
        {
            pixels.push(d);
            i = i + 1;
        }
        Image { width, pixels }
    }
}

impl<P> Image<P> {
    /// How many pixels one row holds.
    pub closed spec fn spec_width(&self) -> usize {
        self.width
    }

    #[verifier::when_used_as_spec(spec_width)]
    pub fn width(&self) -> (w: usize)
        ensures
            w == self.spec_width(),
    {
        self.width
    }

    /// The read view of row `row`: the `width` contiguous pixels starting
    /// at `row * width`. A row index past the buffer is ruled out here, as
    /// the underlying buffer access would fail on it.
    pub fn index(&self, row: usize) -> (r: &[P])
        requires
            row * self.spec_width() + self.spec_width() <= self@.len(),
        ensures
            r@ == self@.subrange(
                row * self.spec_width(),
                row * self.spec_width() + self.spec_width(),
            ),
            r@.len() == self.spec_width(),
    {
        proof {
            vstd::std_specs::vec::axiom_spec_len(&self.pixels);
        }
        let start = row * self.width;
        slice_subrange(self.pixels.as_slice(), start, start + self.width)
    }

    /// The write view of row `row`: the same range as `index`, borrowed
    /// mutably. Writing through it changes exactly the written positions of
    /// the row and nothing outside it.
    pub fn index_mut(&mut self, row: usize) -> (r: &mut [P])
        requires
            row * old(self).spec_width() + old(self).spec_width() <= old(self)@.len(),
        ensures
            r@ == old(self)@.subrange(
                row * old(self).spec_width(),
                row * old(self).spec_width() + old(self).spec_width(),
            ),
            r@.len() == old(self).spec_width(),
            final(r)@.len() == old(self).spec_width(),
            final(self).spec_width() == old(self).spec_width(),
            final(self)@.len() == old(self)@.len(),
            final(self)@ == old(self)@.subrange(0, row * old(self).spec_width()) + final(r)@
                + old(self)@.subrange(
                row * old(self).spec_width() + old(self).spec_width(),
                old(self)@.len() as int,
            ),
            forall|k: int|
                0 <= k < old(self).spec_width() ==> final(self)@[row * old(self).spec_width() + k]
                    == final(r)@[k],
            forall|k: int|
                0 <= k < old(self)@.len() && !(row * old(self).spec_width() <= k < row * old(
                    self,
                ).spec_width() + old(self).spec_width()) ==> final(self)@[k] == old(self)@[k],
    {
        proof {
            vstd::std_specs::vec::axiom_spec_len(&self.pixels);
        }
        let start = row * self.width;
        let end = start + self.width;
        vec_range_mut(&mut self.pixels, start, end)
    }

    /// One pixel, read through the row view of `row` and the view's own
    /// indexing at `col`.
    pub fn pixel(&self, row: usize, col: usize) -> (p: &P)
        requires
            row * self.spec_width() + self.spec_width() <= self@.len(),
            col < self.spec_width(),
        ensures
            *p == self@[row * self.spec_width() + col],
    {
        let r = self.index(row);
        vstd::slice::slice_index_get(r, col)
    }

    /// One pixel written through the row view of `row` at `col`: the flat
    /// buffer changes at position `row * width + col` alone, so reading the
    /// same coordinate afterwards returns the written value.
    pub fn set_pixel(&mut self, row: usize, col: usize, p: P)
        requires
            row * old(self).spec_width() + old(self).spec_width() <= old(self)@.len(),
            col < old(self).spec_width(),
        ensures
            final(self).spec_width() == old(self).spec_width(),
            final(self)@ == old(self)@.update(row * old(self).spec_width() + col, p),
    {
        let ghost width = self.spec_width();
        let ghost before = self@;
        let r = self.index_mut(row);
        r.set(col, p);
        proof {
            assert(self@ =~= before.update(row * width + col, p));
        }
    }
}

} // verus!
