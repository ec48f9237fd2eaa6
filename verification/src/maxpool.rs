use vstd::prelude::*;
use crate::error::ConfigError;
use crate::geometry::{
    Shape3, lemma_flat_index_bound, lemma_flat_index_decompose, lemma_flat_index_injective,
    lemma_flat_index_lex, lemma_window_cell_in_bounds, lemma_volume_le,
    lemma_output_width_le_input, spec_output_width, valid_window, window_error,
    window_output_shape,
};
use vstd::seq_lib::group_to_multiset_ensures;
use vstd::multiset::Multiset;

verus! {

/// A max-pooling layer.
///
/// It owns no parameters: only its window geometry and the argmax cache the
/// last forward pass filled, one input-plane coordinate per output cell.
/// The cell values themselves are generic: the layer relocates and compares
/// values but never does arithmetic on them, so the scalar type and the
/// comparison are the caller's.
pub struct MaxPoolingLayer {
    pub input_size: Shape3,
    pub kernel_size: usize,
    pub stride: usize,
    pub output_size: Shape3,
    /// For each output cell, in row-major order of `output_size`, the
    /// `(x, y)` input-plane coordinate of the maximum the last forward pass
    /// found in that cell's window.
    pub highest_indices: Vec<(usize, usize)>,
}

impl MaxPoolingLayer {
    /// The geometry fields are mutually consistent and the argmax cache has
    /// one in-range entry per output cell.
    pub open spec fn wf(self) -> bool {
        &&& valid_window(self.input_size, self.kernel_size as int, self.stride as int)
        &&& self.output_size.w == spec_output_width(
            self.input_size.w as int,
            self.kernel_size as int,
            self.stride as int,
        )
        &&& self.output_size.h == spec_output_width(
            self.input_size.h as int,
            self.kernel_size as int,
            self.stride as int,
        )
        &&& self.output_size.d == self.input_size.d
        &&& self.input_size.volume() <= usize::MAX
        &&& self.highest_indices@.len() == self.output_size.volume()
        &&& forall|i: int|
            0 <= i < self.highest_indices@.len() ==> {
                let c = #[trigger] self.highest_indices@[i];
                c.0 < self.input_size.w && c.1 < self.input_size.h
            }
    }

    /// Input-plane coordinate `(cx, cy)` lies in the window of output
    /// position `(x, y)`.
    pub open spec fn in_window(self, x: int, y: int, cx: int, cy: int) -> bool {
        &&& x * self.stride <= cx < x * self.stride + self.kernel_size
        &&& y * self.stride <= cy < y * self.stride + self.kernel_size
    }

    /// What one forward pass establishes for output cell `(x, y, f)`, about
    /// the returned values `out` and the argmax cache `cache`.
    ///
    /// Always: the cell holds the input value at its cached in-window
    /// coordinate, unless the whole window lost to the sentinel, which kept
    /// the sentinel and the origin.  And whenever some window value beats
    /// the sentinel under every behaviour `gt` admits, the first case is
    /// guaranteed: the cache points into the window and the output is read
    /// from the input there.
    pub open spec fn cell_scanned<T, F: Fn(T, T) -> bool>(
        self,
        input: Seq<T>,
        out: Seq<T>,
        cache: Seq<(usize, usize)>,
        sentinel: T,
        gt: F,
        x: int,
        y: int,
        f: int,
    ) -> bool {
        let i = self.output_size.flat_index(x, y, f);
        let c = cache[i];
        let found = self.in_window(x, y, c.0 as int, c.1 as int) && out[i] == input[
            self.input_size.flat_index(c.0 as int, c.1 as int, f)
        ];
        &&& ((out[i] == sentinel && c == (0usize, 0usize)) || found)
        &&& (exists|kx: int, ky: int|
            0 <= kx < self.kernel_size && 0 <= ky < self.kernel_size && #[trigger] definitely_gt(
                gt,
                input[self.input_size.flat_index(x * self.stride + kx, y * self.stride + ky, f)],
                sentinel,
            )) ==> found
    }

    /// Creates a max-pooling layer over `input_size` with the given window,
    /// rejecting any geometry the sliding-window size rule does not accept.
    /// The argmax cache starts at the origin of the input plane.
    pub fn new(input_size: Shape3, kernel_size: usize, stride: usize) -> (r: Result<
        MaxPoolingLayer,
        ConfigError,
    >)
        requires
            input_size.w < usize::MAX,
            input_size.h < usize::MAX,
            input_size.volume() <= usize::MAX,
        ensures
            match r {
                Ok(l) => {
                    &&& l.wf()
                    &&& l.input_size == input_size
                    &&& l.kernel_size == kernel_size
                    &&& l.stride == stride
                    &&& forall|i: int|
                        0 <= i < l.highest_indices@.len()
                            ==> #[trigger] l.highest_indices@[i] == (0usize, 0usize)
                },
                Err(e) => window_error(input_size, kernel_size as int, stride as int, e),
            },
    {
        let output_size = match window_output_shape(input_size, kernel_size, stride, input_size.d) {
            Ok(o) => o,
            Err(e) => {
                return Err(e);
            },
        };
        proof {
            lemma_output_width_le_input(
                input_size.w as int,
                kernel_size as int,
                stride as int,
            );
            lemma_output_width_le_input(
                input_size.h as int,
                kernel_size as int,
                stride as int,
            );
            lemma_volume_le(output_size, input_size);
        }
        let n = output_size.num_cells();
        let highest_indices = origin_cache(n);
        Ok(MaxPoolingLayer { input_size, kernel_size, stride, output_size, highest_indices })
    }

    /// Resets the argmax cache to the origin of the input plane, as a fresh
    /// layer has it; the geometry is untouched.
    pub fn zero(&mut self)
        requires
            old(self).wf(),
        ensures
            final(self).wf(),
            final(self).input_size == old(self).input_size,
            final(self).kernel_size == old(self).kernel_size,
            final(self).stride == old(self).stride,
            final(self).output_size == old(self).output_size,
            forall|i: int|
                0 <= i < final(self).highest_indices@.len()
                    ==> #[trigger] final(self).highest_indices@[i] == (0usize, 0usize),
    {
        proof {
            lemma_output_width_le_input(
                self.input_size.w as int,
                self.kernel_size as int,
                self.stride as int,
            );
            lemma_output_width_le_input(
                self.input_size.h as int,
                self.kernel_size as int,
                self.stride as int,
            );
            lemma_volume_le(self.output_size, self.input_size);
        }
        let n = self.output_size.num_cells();
        self.highest_indices = origin_cache(n);
    }

    /// One forward pass: for every output cell, scans that cell's window in
    /// the input, records the coordinate of the running maximum under `gt`
    /// in the argmax cache, and returns the maxima.
    ///
    /// The scan starts from `sentinel` with the cache entry at the origin,
    /// exactly as a freshly zeroed layer has it: a cell whose window never
    /// beats the sentinel keeps that pair.  Nothing is assumed about `gt`
    /// beyond its being callable, so the contract promises of each cell
    /// that its cached coordinate lies in the cell's window and that the
    /// returned value is the input value there -- or that the sentinel and
    /// the origin survived.
    pub fn forward_propagate<T: Copy, F: Fn(T, T) -> bool>(
        &mut self,
        input: &Vec<T>,
        sentinel: T,
        gt: F,
    ) -> (r: Vec<T>)
        requires
            old(self).wf(),
            input@.len() == old(self).input_size.volume(),
            forall|a: T, b: T| #[trigger] call_requires(gt, (a, b)),
        ensures
            final(self).wf(),
            final(self).input_size == old(self).input_size,
            final(self).kernel_size == old(self).kernel_size,
            final(self).stride == old(self).stride,
            final(self).output_size == old(self).output_size,
            r@.len() == old(self).output_size.volume(),
            forall|x: int, y: int, f: int|
                #![trigger old(self).output_size.flat_index(x, y, f)]
                old(self).output_size.contains(x, y, f) ==> old(self).cell_scanned(
                    input@,
                    r@,
                    final(self).highest_indices@,
                    sentinel,
                    gt,
                    x,
                    y,
                    f,
                ),
    {
        let isz = self.input_size;
        let osz = self.output_size;
        let k = self.kernel_size;
        let st = self.stride;
        let mut out: Vec<T> = Vec::new();
        let mut cache: Vec<(usize, usize)> = Vec::new();
        let mut x: usize = 0;
        proof {
            assert(x * osz.h * osz.d == 0) by (nonlinear_arith)
                requires
                    x == 0;
        }
        while x < osz.w
            invariant
                old(self).wf(),
                isz == old(self).input_size,
                osz == old(self).output_size,
                k == old(self).kernel_size,
                st == old(self).stride,
                input@.len() == isz.volume(),
                forall|a: T, b: T| #[trigger] call_requires(gt, (a, b)),
                x <= osz.w,
                out@.len() == x * osz.h * osz.d,
                cache@.len() == out@.len(),
                forall|j: int|
                    0 <= j < cache@.len() ==> {
                        let c = #[trigger] cache@[j];
                        c.0 < isz.w && c.1 < isz.h
                    },
                forall|a: int, b: int, c: int|
                    #![trigger osz.flat_index(a, b, c)]
                    osz.contains(a, b, c) && a < x ==> old(self).cell_scanned(
                        input@,
                        out@,
                        cache@,
                        sentinel,
                        gt,
                        a,
                        b,
                        c,
                    ),
            decreases osz.w - x,
        {
            let mut y: usize = 0;
            proof {
                assert((x * osz.h + y) * osz.d == x * osz.h * osz.d) by (nonlinear_arith)
                    requires
                        y == 0;
            }
            while y < osz.h
                invariant
                    old(self).wf(),
                    isz == old(self).input_size,
                    osz == old(self).output_size,
                    k == old(self).kernel_size,
                    st == old(self).stride,
                    input@.len() == isz.volume(),
                    forall|a: T, b: T| #[trigger] call_requires(gt, (a, b)),
                    x < osz.w,
                    y <= osz.h,
                    out@.len() == (x * osz.h + y) * osz.d,
                    cache@.len() == out@.len(),
                    forall|j: int|
                        0 <= j < cache@.len() ==> {
                            let c = #[trigger] cache@[j];
                            c.0 < isz.w && c.1 < isz.h
                        },
                    forall|a: int, b: int, c: int|
                        #![trigger osz.flat_index(a, b, c)]
                        osz.contains(a, b, c) && (a < x || (a == x && b < y)) ==> old(
                            self,
                        ).cell_scanned(input@, out@, cache@, sentinel, gt, a, b, c),
                decreases osz.h - y,
            {
                let mut f: usize = 0;
                while f < osz.d
                    invariant
                        old(self).wf(),
                        isz == old(self).input_size,
                        osz == old(self).output_size,
                        k == old(self).kernel_size,
                        st == old(self).stride,
                        input@.len() == isz.volume(),
                        forall|a: T, b: T| #[trigger] call_requires(gt, (a, b)),
                        x < osz.w,
                        y < osz.h,
                        f <= osz.d,
                        out@.len() == (x * osz.h + y) * osz.d + f,
                        cache@.len() == out@.len(),
                        forall|j: int|
                            0 <= j < cache@.len() ==> {
                                let c = #[trigger] cache@[j];
                                c.0 < isz.w && c.1 < isz.h
                            },
                        forall|a: int, b: int, c: int|
                            #![trigger osz.flat_index(a, b, c)]
                            osz.contains(a, b, c) && (a < x || (a == x && b < y) || (a == x && b
                                == y && c < f)) ==> old(self).cell_scanned(
                                input@,
                                out@,
                                cache@,
                                sentinel,
                                gt,
                                a,
                                b,
                                c,
                            ),
                    decreases osz.d - f,
                {
                    let mut best = sentinel;
                    let mut cx: usize = 0;
                    let mut cy: usize = 0;
                    let mut ky: usize = 0;
                    while ky < k
                        invariant
                            old(self).wf(),
                            isz == old(self).input_size,
                            osz == old(self).output_size,
                            k == old(self).kernel_size,
                            st == old(self).stride,
                            input@.len() == isz.volume(),
                            forall|a: T, b: T| #[trigger] call_requires(gt, (a, b)),
                            x < osz.w,
                            y < osz.h,
                            f < osz.d,
                            ky <= k,
                            (best == sentinel && cx == 0 && cy == 0 && (forall|kx2: int, ky2: int|
                                0 <= kx2 < k && 0 <= ky2 < ky ==> !(#[trigger] definitely_gt(
                                    gt,
                                    input@[isz.flat_index(
                                        x * st + kx2,
                                        y * st + ky2,
                                        f as int,
                                    )],
                                    sentinel,
                                )))) || (old(self).in_window(
                                x as int,
                                y as int,
                                cx as int,
                                cy as int,
                            ) && cx < isz.w && cy < isz.h && best == input@[isz.flat_index(
                                cx as int,
                                cy as int,
                                f as int,
                            )]),
                        decreases k - ky,
                    {
                        let mut kx: usize = 0;
                        while kx < k
                            invariant
                                old(self).wf(),
                                isz == old(self).input_size,
                                osz == old(self).output_size,
                                k == old(self).kernel_size,
                                st == old(self).stride,
                                input@.len() == isz.volume(),
                                forall|a: T, b: T| #[trigger] call_requires(gt, (a, b)),
                                x < osz.w,
                                y < osz.h,
                                f < osz.d,
                                ky < k,
                                kx <= k,
                                (best == sentinel && cx == 0 && cy == 0 && (forall|
                                    kx2: int,
                                    ky2: int,
                                |
                                    0 <= kx2 < k && 0 <= ky2 < k && (ky2 < ky || (ky2 == ky && kx2
                                        < kx)) ==> !(#[trigger] definitely_gt(
                                        gt,
                                        input@[isz.flat_index(
                                            x * st + kx2,
                                            y * st + ky2,
                                            f as int,
                                        )],
                                        sentinel,
                                    )))) || (old(self).in_window(
                                    x as int,
                                    y as int,
                                    cx as int,
                                    cy as int,
                                ) && cx < isz.w && cy < isz.h && best == input@[isz.flat_index(
                                    cx as int,
                                    cy as int,
                                    f as int,
                                )]),
                            decreases k - kx,
                        {
                            proof {
                                lemma_window_cell_in_bounds(
                                    isz.w as int,
                                    k as int,
                                    st as int,
                                    x as int,
                                    kx as int,
                                );
                                lemma_window_cell_in_bounds(
                                    isz.h as int,
                                    k as int,
                                    st as int,
                                    y as int,
                                    ky as int,
                                );
                            }
                            let ix = x * st + kx;
                            let iy = y * st + ky;
                            let idx = isz.index_of(ix, iy, f);
                            let v = input[idx];
                            let beats = gt(v, best);
                            if beats {
                                best = v;
                                cx = ix;
                                cy = iy;
                            }
                            kx = kx + 1;
                            proof {
                                if !beats && best == sentinel {
                                    assert(call_ensures(gt, (v, sentinel), false));
                                    assert(!definitely_gt(gt, v, sentinel));
                                }
                            }
                        }
                        ky = ky + 1;
                    }
                    out.push(best);
                    cache.push((cx, cy));
                    f = f + 1;
                    proof {
                        assert forall|a: int, b: int, c: int|
                            #![trigger osz.flat_index(a, b, c)]
                            osz.contains(a, b, c) && (a < x || (a == x && b < y) || (a == x && b
                                == y && c < f)) implies old(self).cell_scanned(
                            input@,
                            out@,
                            cache@,
                            sentinel,
                            gt,
                            a,
                            b,
                            c,
                        ) by {
                            lemma_flat_index_bound(osz, a, b, c);
                            if a == x && b == y && c == f - 1 {
                                assert(osz.flat_index(a, b, c) == out@.len() - 1);
                            } else {
                                lemma_flat_index_lex(osz, a, b, c, x as int, y as int, f - 1);
                                assert(osz.flat_index(a, b, c) < out@.len() - 1);
                            }
                        }
                    }
                }
                y = y + 1;
                proof {
                    assert(((x * osz.h + y - 1) * osz.d + osz.d) == (x * osz.h + y) * osz.d)
                        by (nonlinear_arith);
                }
            }
            x = x + 1;
            proof {
                assert((((x - 1) * osz.h + osz.h) * osz.d) == x * osz.h * osz.d)
                    by (nonlinear_arith);
            }
        }
        proof {
            assert(osz.w * osz.h * osz.d == osz.volume()) by (nonlinear_arith);
        }
        self.highest_indices = cache;
        out
    }

    /// Flat input position to which output cell `i` scatters its error: the
    /// cached argmax coordinate of that cell, in the cell's depth slice.
    pub open spec fn target(self, i: int) -> int {
        let c = self.highest_indices@[i];
        self.input_size.flat_index(c.0 as int, c.1 as int, self.output_size.coord_z(i))
    }

    /// An input-shaped sequence holding `zero` everywhere: the backward
    /// pass's starting point.
    pub open spec fn zero_base<T>(self, zero: T) -> Seq<T> {
        Seq::new(self.input_size.volume() as nat, |i: int| zero)
    }

    /// The input-shaped sequence after the first `n` output cells have
    /// scattered their errors onto `base`, a later cell overwriting an
    /// earlier one that aims at the same position.
    pub open spec fn scatter_upto<T>(self, err: Seq<T>, base: Seq<T>, n: int) -> Seq<T>
        decreases n,
    {
        if n <= 0 {
            base
        } else {
            self.scatter_upto(err, base, n - 1).update(self.target(n - 1), err[n - 1])
        }
    }

    /// One backward pass: routes each output cell's error value to the
    /// cached argmax coordinate of that cell; every other input position
    /// receives `zero`.
    pub fn back_propagate<T: Copy>(&self, error: &Vec<T>, zero: T) -> (r: Vec<T>)
        requires
            self.wf(),
            error@.len() == self.output_size.volume(),
        ensures
            r@.len() == self.input_size.volume(),
            r@ == self.scatter_upto(error@, self.zero_base(zero), error@.len() as int),
    {
        let n_in = self.input_size.num_cells();
        let mut r: Vec<T> = Vec::new();
        let mut i: usize = 0;
        while i < n_in
            invariant
                i <= n_in,
                n_in == self.input_size.volume(),
                r@.len() == i,
                forall|p: int| 0 <= p < i ==> r@[p] == zero,
            decreases n_in - i,
        {
            r.push(zero);
            i = i + 1;
        }
        proof {
            assert(r@ =~= self.zero_base(zero));
        }
        let n_out = self.highest_indices.len();
        let mut j: usize = 0;
        while j < n_out
            invariant
                self.wf(),
                error@.len() == self.output_size.volume(),
                n_out == self.highest_indices@.len(),
                j <= n_out,
                r@.len() == self.input_size.volume(),
                r@ == self.scatter_upto(error@, self.zero_base(zero), j as int),
            decreases n_out - j,
        {
            let osz = self.output_size;
            let isz = self.input_size;
            proof {
                assert(osz.d >= 1) by (nonlinear_arith)
                    requires
                        0 <= j < osz.w * osz.h * osz.d && osz.volume() == osz.w * osz.h * osz.d;
            }
            let f = j % osz.d;
            let c = self.highest_indices[j];
            proof {
                assert(0 <= f < osz.d);
                assert(osz.d == isz.d);
                lemma_flat_index_bound(isz, c.0 as int, c.1 as int, f as int);
            }
            let t = isz.index_of(c.0, c.1, f);
            r[t] = error[j];
            j = j + 1;
        }
        r
    }

    /// Scattering never changes the length of the base sequence.
    pub proof fn lemma_scatter_len<T>(self, err: Seq<T>, base: Seq<T>, n: int)
        requires
            forall|i: int| 0 <= i < n ==> 0 <= #[trigger] self.target(i) < base.len(),
        ensures
            self.scatter_upto(err, base, n).len() == base.len(),
        decreases n,
    {
        if n > 0 {
            self.lemma_scatter_len(err, base, n - 1);
        }
    }

    /// A position no cell aims at keeps its base value through the scatter.
    pub proof fn lemma_scatter_untouched<T>(self, err: Seq<T>, base: Seq<T>, n: int, p: int)
        requires
            0 <= p < base.len(),
            forall|i: int| 0 <= i < n ==> 0 <= #[trigger] self.target(i) < base.len(),
            forall|i: int| 0 <= i < n ==> self.target(i) != p,
        ensures
            self.scatter_upto(err, base, n)[p] == base[p],
        decreases n,
    {
        if n > 0 {
            self.lemma_scatter_untouched(err, base, n - 1, p);
            self.lemma_scatter_len(err, base, n - 1);
        }
    }

    /// A position aimed at by cell `i` and by no later cell holds exactly
    /// cell `i`'s error after the scatter.
    pub proof fn lemma_scatter_hits<T>(self, err: Seq<T>, base: Seq<T>, n: int, i: int)
        requires
            0 <= i < n,
            forall|j: int| 0 <= j < n ==> 0 <= #[trigger] self.target(j) < base.len(),
            forall|j: int| i < j < n ==> self.target(j) != self.target(i),
        ensures
            self.scatter_upto(err, base, n)[self.target(i)] == err[i],
        decreases n,
    {
        self.lemma_scatter_len(err, base, n - 1);
        if i < n - 1 {
            self.lemma_scatter_hits(err, base, n - 1, i);
        }
    }

    /// Error is neither created nor destroyed, only relocated: when the
    /// first `n` cells aim at pairwise-distinct in-range positions, the
    /// scattered sequence holds, as a multiset, exactly those `n` error
    /// values together with the zeros of the untouched positions.
    pub proof fn lemma_scatter_relocates<T>(self, err: Seq<T>, zero: T, n: int)
        requires
            0 <= n <= err.len(),
            n <= self.input_size.volume(),
            forall|i: int| 0 <= i < n ==> 0 <= #[trigger] self.target(i) < self.input_size.volume(),
            forall|i: int, j: int| 0 <= i < j < n ==> self.target(i) != self.target(j),
        ensures
            self.scatter_upto(err, self.zero_base(zero), n).to_multiset() == err.subrange(
                0,
                n,
            ).to_multiset().add(
                Seq::new((self.input_size.volume() - n) as nat, |i: int| zero).to_multiset(),
            ),
        decreases n,
    {
        broadcast use group_to_multiset_ensures;

        let vol = self.input_size.volume();
        let base = self.zero_base(zero);
        if n == 0 {
            assert(err.subrange(0, 0) =~= Seq::<T>::empty());
            assert(Seq::new((vol - 0) as nat, |i: int| zero) =~= base);
            assert(Seq::<T>::empty().to_multiset() == Multiset::<T>::empty());
            assert(self.scatter_upto(err, base, 0).to_multiset() =~= Seq::<T>::empty()
                .to_multiset().add(base.to_multiset()));
        } else {
            self.lemma_scatter_relocates(err, zero, n - 1);
            let prev = self.scatter_upto(err, base, n - 1);
            let t = self.target(n - 1);
            self.lemma_scatter_len(err, base, n - 1);
            self.lemma_scatter_untouched(err, base, n - 1, t);
            assert(prev[t] == zero);
            assert(self.scatter_upto(err, base, n) == prev.update(t, err[n - 1]));
            assert(prev.update(t, err[n - 1]).to_multiset() == prev.to_multiset().insert(
                err[n - 1],
            ).remove(zero));
            assert(err.subrange(0, n) =~= err.subrange(0, n - 1).push(err[n - 1]));
            assert(err.subrange(0, n).to_multiset() =~= err.subrange(0, n - 1)
                .to_multiset().insert(err[n - 1]));
            let zprev = Seq::new((vol - (n - 1)) as nat, |i: int| zero);
            let znext = Seq::new((vol - n) as nat, |i: int| zero);
            assert(zprev =~= znext.push(zero));
            assert(zprev.to_multiset() =~= znext.to_multiset().insert(zero));
            assert(prev.to_multiset().insert(err[n - 1]).remove(zero) =~= err.subrange(0, n)
                .to_multiset().add(znext.to_multiset())) by {
                assert(prev.to_multiset() == err.subrange(0, n - 1).to_multiset().add(
                    zprev.to_multiset(),
                ));
                assert(zprev.to_multiset().count(zero) >= 1);
            }
        }
    }

    /// With non-overlapping windows -- stride at least the kernel size --
    /// and every cached coordinate inside its own cell's window, as a
    /// forward pass leaves the cache whenever every window beat the
    /// sentinel, distinct output cells scatter to distinct input positions.
    pub proof fn lemma_targets_injective(self)
        requires
            self.wf(),
            self.stride >= self.kernel_size,
            forall|x: int, y: int, f: int|
                #![trigger self.output_size.flat_index(x, y, f)]
                self.output_size.contains(x, y, f) ==> {
                    let c = self.highest_indices@[self.output_size.flat_index(x, y, f)];
                    self.in_window(x, y, c.0 as int, c.1 as int)
                },
        ensures
            forall|i: int, j: int|
                0 <= i < j < self.output_size.volume() ==> self.target(i) != self.target(j),
    {
        let osz = self.output_size;
        let isz = self.input_size;
        assert forall|i: int, j: int|
            0 <= i < j < osz.volume() implies self.target(i) != self.target(j) by {
            lemma_flat_index_decompose(osz, i);
            lemma_flat_index_decompose(osz, j);
            let x1 = osz.coord_x(i);
            let y1 = osz.coord_y(i);
            let f1 = osz.coord_z(i);
            let x2 = osz.coord_x(j);
            let y2 = osz.coord_y(j);
            let f2 = osz.coord_z(j);
            let c1 = self.highest_indices@[i];
            let c2 = self.highest_indices@[j];
            assert(self.in_window(x1, y1, c1.0 as int, c1.1 as int));
            assert(self.in_window(x2, y2, c2.0 as int, c2.1 as int));
            if self.target(i) == self.target(j) {
                lemma_flat_index_injective(
                    isz,
                    c1.0 as int,
                    c1.1 as int,
                    f1,
                    c2.0 as int,
                    c2.1 as int,
                    f2,
                );
                assert(c1.0 == c2.0 && c1.1 == c2.1 && f1 == f2);
                assert(x1 != x2 || y1 != y2) by {
                    lemma_flat_index_injective(osz, x1, y1, f1, x2, y2, f2);
                }
                if x1 != x2 {
                    assert(false) by (nonlinear_arith)
                        requires
                            x1 != x2 && self.kernel_size <= self.stride && x1 * self.stride
                                <= c1.0 < x1 * self.stride + self.kernel_size && x2 * self.stride
                                <= c2.0 < x2 * self.stride + self.kernel_size && c1.0 == c2.0;
                } else {
                    assert(false) by (nonlinear_arith)
                        requires
                            y1 != y2 && self.kernel_size <= self.stride && y1 * self.stride
                                <= c1.1 < y1 * self.stride + self.kernel_size && y2 * self.stride
                                <= c2.1 < y2 * self.stride + self.kernel_size && c1.1 == c2.1;
                }
            }
        }
    }

    /// Max-pool backward is a pure relocation of error.  For a layer with
    /// non-overlapping windows whose cache a forward pass filled with one
    /// in-window coordinate per cell -- as happens whenever every window
    /// holds a value beating the sentinel -- the backward result holds, as a
    /// multiset, exactly the incoming error values plus zeros: error is
    /// neither created nor destroyed, only moved.
    pub proof fn lemma_back_propagate_relocates<T>(self, err: Seq<T>, zero: T)
        requires
            self.wf(),
            self.stride >= self.kernel_size,
            err.len() == self.output_size.volume(),
            forall|x: int, y: int, f: int|
                #![trigger self.output_size.flat_index(x, y, f)]
                self.output_size.contains(x, y, f) ==> {
                    let c = self.highest_indices@[self.output_size.flat_index(x, y, f)];
                    self.in_window(x, y, c.0 as int, c.1 as int)
                },
        ensures
            self.scatter_upto(err, self.zero_base(zero), err.len() as int).to_multiset()
                == err.to_multiset().add(
                Seq::new(
                    (self.input_size.volume() - self.output_size.volume()) as nat,
                    |i: int| zero,
                ).to_multiset(),
            ),
    {
        let osz = self.output_size;
        let isz = self.input_size;
        let n = osz.volume();
        lemma_output_width_le_input(isz.w as int, self.kernel_size as int, self.stride as int);
        lemma_output_width_le_input(isz.h as int, self.kernel_size as int, self.stride as int);
        lemma_volume_le(osz, isz);
        assert forall|i: int| 0 <= i < n implies 0 <= #[trigger] self.target(i) < isz.volume() by {
            lemma_flat_index_decompose(osz, i);
            let c = self.highest_indices@[i];
            lemma_flat_index_bound(isz, c.0 as int, c.1 as int, osz.coord_z(i));
        }
        self.lemma_targets_injective();
        self.lemma_scatter_relocates(err, zero, n);
        assert(err.subrange(0, n) =~= err);
    }

    /// A max-pooling layer has no learnable parameters: the per-minibatch
    /// update is a no-op.
    pub fn update(&mut self, _minibatch_size: usize)
        ensures
            *final(self) == *old(self),
    {
    }
}

/// Every behaviour the comparator admits on `(a, b)` answers `true`:
/// whatever `gt` may return for this pair, `a` beats `b`.
pub open spec fn definitely_gt<T, F: Fn(T, T) -> bool>(gt: F, a: T, b: T) -> bool {
    forall|ret: bool| call_ensures(gt, (a, b), ret) ==> ret
}

/// A fresh argmax cache: `n` entries, all at the input-plane origin.
fn origin_cache(n: usize) -> (r: Vec<(usize, usize)>)
    ensures
        r@.len() == n,
        forall|j: int| 0 <= j < n ==> #[trigger] r@[j] == (0usize, 0usize),
{
    let mut cache: Vec<(usize, usize)> = Vec::new();
    let mut i: usize = 0;
    while i < n
        invariant
            i <= n,
            cache@.len() == i,
            forall|j: int| 0 <= j < i ==> #[trigger] cache@[j] == (0usize, 0usize),
        decreases n - i,
    {
        cache.push((0, 0));
        i = i + 1;
    }
    cache
}

} // verus!
