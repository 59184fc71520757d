use vstd::prelude::*;

use crate::api::{RECTS_X, RECTS_Y};

verus! {

/// Position of pixel `(x, y)` in a row-major buffer of width `w`.
pub open spec fn cell(w: nat, x: nat, y: nat) -> int {
    (y * w + x) as int
}

/// A cell inside a `w` by `h` grid lies inside its `w * h` buffer.
pub proof fn lemma_cell_in_bounds(w: nat, h: nat, x: nat, y: nat)
    requires
        x < w,
        y < h,
    ensures
        0 <= cell(w, x, y) < w * h,
{
    assert(y * w + x < w * h) by (nonlinear_arith)
        requires
            x < w,
            y < h,
    ;
}

/// The display memory: a `w` by `h` matrix of pixels stored row by row.
#[derive(Clone, Debug)]
pub struct Vram {
    /// Pixels, row-major
    value: Vec<u8>,
    /// Width
    w: usize,
    /// Height
    h: usize,
}

impl View for Vram {
    type V = Seq<u8>;

    closed spec fn view(&self) -> Seq<u8> {
        self.value@
    }
}

impl Vram {
    /// The width, in pixels.
    pub closed spec fn width(&self) -> nat {
        self.w as nat
    }

    /// The height, in pixels.
    pub closed spec fn height(&self) -> nat {
        self.h as nat
    }

    /// The buffer holds exactly one cell per pixel.
    pub open spec fn wf(&self) -> bool {
        self@.len() == self.width() * self.height()
    }

    /// The pixel at `(x, y)`.
    pub open spec fn pixel(&self, x: nat, y: nat) -> u8 {
        self@[cell(self.width(), x, y)]
    }

    /// A buffer of `w * h` pixels, each holding `byte`.
    pub fn new(w: usize, h: usize, byte: u8) -> (r: Self)
        requires
            w * h <= usize::MAX,
        ensures
            r.wf(),
            r.width() == w,
            r.height() == h,
            r@ == Seq::new((w * h) as nat, |_i: int| byte),
    {
        let n: usize = w * h;
        let mut value: Vec<u8> = Vec::with_capacity(n);
        let mut k: usize = 0;
        while k < n
            invariant
                k <= n,
                value@ == Seq::new(k as nat, |_i: int| byte),
            decreases n - k,
        {
            value.push(byte);
            k = k + 1;
            proof {
                assert(value@ =~= Seq::new(k as nat, |_i: int| byte));
            }
        }
        Self { value, w, h }
    }

    /// Clear the screen
    pub fn clear(&mut self)
        requires
            old(self).wf(),
        ensures
            final(self).wf(),
            final(self).width() == old(self).width(),
            final(self).height() == old(self).height(),
            final(self)@ == Seq::new(old(self)@.len(), |_i: int| 0u8),
    {
        let n: usize = self.value.len();
        let mut k: usize = 0;
        while k < n
            invariant
                k <= n,
                n == self.value@.len(),
                n == old(self)@.len(),
                self.w == old(self).w,
                self.h == old(self).h,
                forall|j: int| 0 <= j < k ==> self.value@[j] == 0u8,
            decreases n - k,
        {
            self.value.set(k, 0);
            k = k + 1;
        }
        proof {
            assert(self.value@ =~= Seq::new(old(self)@.len(), |_i: int| 0u8));
        }
    }

    /// A copy of the pixels, row-major
    pub fn value(&self) -> (r: Vec<u8>)
        ensures
            r@ == self@,
    {
        self.value.clone()
    }

    /// A copy of this screen, for the host to draw
    pub fn snapshot(&self) -> (r: Self)
        ensures
            r@ == self@,
            r.width() == self.width(),
            r.height() == self.height(),
    {
        Vram { value: self.value.clone(), w: self.w, h: self.h }
    }

    /// Get the width
    pub fn w(&self) -> (r: usize)
        ensures
            r == self.width(),
    {
        self.w
    }

    /// Get the height
    pub fn h(&self) -> (r: usize)
        ensures
            r == self.height(),
    {
        self.h
    }

    /// The buffer position of `(x, y)`
    pub fn index(&self, x: usize, y: usize) -> (r: usize)
        requires
            y * self.width() + x <= usize::MAX,
        ensures
            r == cell(self.width(), x as nat, y as nat),
    {
        y * self.w + x
    }

    /// Set the pixel at `(x, y)`
    pub fn put(&mut self, x: usize, y: usize, byte: u8)
        requires
            old(self).wf(),
            x < old(self).width(),
            y < old(self).height(),
        ensures
            final(self).wf(),
            final(self).width() == old(self).width(),
            final(self).height() == old(self).height(),
            final(self)@ == old(self)@.update(cell(old(self).width(), x as nat, y as nat), byte),
    {
        proof {
            lemma_cell_in_bounds(self.w as nat, self.h as nat, x as nat, y as nat);
        }
        let len = self.value.len();
        assert(cell(self.width(), x as nat, y as nat) < len);
        let index = self.index(x, y);
        self.value.set(index, byte);
    }

    /// The pixel at `(x, y)`
    pub fn get(&self, x: usize, y: usize) -> (r: u8)
        requires
            self.wf(),
            x < self.width(),
            y < self.height(),
        ensures
            r == self.pixel(x as nat, y as nat),
    {
        proof {
            lemma_cell_in_bounds(self.w as nat, self.h as nat, x as nat, y as nat);
        }
        let len = self.value.len();
        assert(cell(self.width(), x as nat, y as nat) < len);
        self.value[self.index(x, y)]
    }
}

impl Default for Vram {
    /// A cleared 64 by 32 screen.
    fn default() -> (r: Self)
        ensures
            r.wf(),
            r.width() == RECTS_X,
            r.height() == RECTS_Y,
            r@ == Seq::new((RECTS_X * RECTS_Y) as nat, |_i: int| 0u8),
    {
        Self::new(RECTS_X as usize, RECTS_Y as usize, 0)
    }
}

} // verus!
