use vstd::prelude::*;
use vstd::arithmetic::div_mod::{
    lemma_div_denominator, lemma_fundamental_div_mod, lemma_fundamental_div_mod_converse,
    lemma_mod_bound,
};
use crate::error::ConfigError;

verus! {

/// A three-dimensional tensor shape: width, height and depth.
///
/// Volumetric activations and errors are `width x height x depth`; a flat
/// vector of length `n` is carried as `(n, 1, 1)` when it crosses into the
/// volumetric part of a network.
#[derive(Clone, Copy, PartialEq, Eq, Structural, Debug)]
pub struct Shape3 {
    pub w: usize,
    pub h: usize,
    pub d: usize,
}

impl Shape3 {
    /// Number of scalar cells a tensor of this shape holds.
    pub open spec fn volume(self) -> int {
        self.w * self.h * self.d
    }

    /// Position of cell `(x, y, z)` in row-major (C-order) flattening.
    pub open spec fn flat_index(self, x: int, y: int, z: int) -> int {
        (x * self.h + y) * self.d + z
    }

    /// `(x, y, z)` lies inside this shape.
    pub open spec fn contains(self, x: int, y: int, z: int) -> bool {
        0 <= x < self.w && 0 <= y < self.h && 0 <= z < self.d
    }

    /// First coordinate of the cell at flat position `i`.
    pub open spec fn coord_x(self, i: int) -> int {
        i / (self.h * self.d)
    }

    /// Second coordinate of the cell at flat position `i`.
    pub open spec fn coord_y(self, i: int) -> int {
        (i / (self.d as int)) % (self.h as int)
    }

    /// Third coordinate of the cell at flat position `i`.
    pub open spec fn coord_z(self, i: int) -> int {
        i % (self.d as int)
    }

    /// Cell count as a machine integer.
    pub fn num_cells(&self) -> (r: usize)
        requires
            self.volume() <= usize::MAX,
        ensures
            r == self.volume(),
    {
        if self.d == 0 {
            0
        } else {
            proof {
                lemma_volume_factor_bounds(*self);
            }
            self.w * self.h * self.d
        }
    }

    /// Row-major position of cell `(x, y, z)`.
    pub fn index_of(&self, x: usize, y: usize, z: usize) -> (r: usize)
        requires
            self.contains(x as int, y as int, z as int),
            self.volume() <= usize::MAX,
        ensures
            r == self.flat_index(x as int, y as int, z as int),
            r < self.volume(),
    {
        proof {
            lemma_flat_index_bound(*self, x as int, y as int, z as int);
            lemma_volume_factor_bounds(*self);
        }
        (x * self.h + y) * self.d + z
    }
}

/// Each factor of a shape's volume is bounded by the volume when the others
/// are positive; used to show the flattening arithmetic stays in range.
proof fn lemma_volume_factor_bounds(s: Shape3) by (nonlinear_arith)
    ensures
        s.volume() >= 0,
        s.d >= 1 ==> s.w * s.h <= s.volume(),
{
}

/// Row-major flattening sends every in-range cell below the volume.
pub proof fn lemma_flat_index_bound(s: Shape3, x: int, y: int, z: int) by (nonlinear_arith)
    requires
        s.contains(x, y, z),
    ensures
        0 <= s.flat_index(x, y, z) < s.volume(),
        0 <= x * s.h,
        x * s.h + y <= s.flat_index(x, y, z),
        (x * s.h + y) * s.d <= s.flat_index(x, y, z),
{
}

/// Row-major flattening respects lexicographic cell order: a cell that
/// comes earlier in `(x, y, z)` scan order lands at a smaller flat position.
pub proof fn lemma_flat_index_lex(
    s: Shape3,
    x1: int,
    y1: int,
    z1: int,
    x2: int,
    y2: int,
    z2: int,
) by (nonlinear_arith)
    requires
        s.contains(x1, y1, z1),
        s.contains(x2, y2, z2),
        x1 < x2 || (x1 == x2 && y1 < y2) || (x1 == x2 && y1 == y2 && z1 < z2),
    ensures
        s.flat_index(x1, y1, z1) < s.flat_index(x2, y2, z2),
{
}

/// Row-major flattening is injective on in-range cells: two distinct cells
/// never share a flat position.
pub proof fn lemma_flat_index_injective(
    s: Shape3,
    x1: int,
    y1: int,
    z1: int,
    x2: int,
    y2: int,
    z2: int,
) by (nonlinear_arith)
    requires
        s.contains(x1, y1, z1),
        s.contains(x2, y2, z2),
    ensures
        s.flat_index(x1, y1, z1) == s.flat_index(x2, y2, z2) ==> x1 == x2 && y1 == y2 && z1
            == z2,
{
}

/// Flattening undoes decomposition: every flat position below the volume is
/// the image of the in-range cell its decomposition names.
pub proof fn lemma_flat_index_decompose(s: Shape3, i: int)
    requires
        0 <= i < s.volume(),
    ensures
        s.contains(s.coord_x(i), s.coord_y(i), s.coord_z(i)),
        s.flat_index(s.coord_x(i), s.coord_y(i), s.coord_z(i)) == i,
{
    let h = s.h as int;
    let d = s.d as int;
    let w = s.w as int;
    assert(w >= 1 && h >= 1 && d >= 1) by (nonlinear_arith)
        requires
            0 <= w && 0 <= h && 0 <= d && 0 <= i && i < w * h * d;
    lemma_fundamental_div_mod(i, d);
    lemma_mod_bound(i, d);
    let q = i / d;
    let z = i % d;
    lemma_fundamental_div_mod(q, h);
    lemma_mod_bound(q, h);
    let x = q / h;
    let y = q % h;
    lemma_div_denominator(i, d, h);
    assert(s.coord_x(i) == x) by {
        assert(i / (h * d) == (i / d) / h) by {
            assert(d * h == h * d) by (nonlinear_arith);
        }
    }
    assert((x * h + y) * d + z == i) by (nonlinear_arith)
        requires
            q == h * x + y && i == d * q + z;
    assert(x < w) by (nonlinear_arith)
        requires
            h >= 1 && d >= 1 && 0 <= y < h && 0 <= z < d && 0 <= x && i < w * h * d && i == (x
                * h + y) * d + z;
}

/// Output width of a sliding window: `(input - kernel) / stride + 1`.
///
/// Defined only where the window fits and the division is exact; a
/// configuration that violates either is rejected by `output_width`.
pub open spec fn spec_output_width(input: int, kernel: int, stride: int) -> int {
    (input - kernel) / stride + 1
}

/// The sliding-window size rule along one spatial axis.
///
/// Returns `(input - kernel) / stride + 1` exactly when the stride is
/// positive, the kernel fits, and the division is exact; each violation is
/// reported as its own configuration error.
pub fn output_width(input: usize, kernel: usize, stride: usize) -> (r: Result<usize, ConfigError>)
    requires
        input < usize::MAX,
    ensures
        match r {
            Ok(o) => stride > 0 && kernel <= input && (input - kernel) % (stride as int) == 0
                && o == spec_output_width(input as int, kernel as int, stride as int),
            Err(e) => match e {
                ConfigError::ZeroStride => stride == 0,
                ConfigError::KernelTooLarge => stride > 0 && kernel > input,
                ConfigError::NonIntegerOutputSize => stride > 0 && kernel <= input
                    && (input - kernel) % (stride as int) != 0,
                _ => false,
            },
        },
{
    if stride == 0 {
        Err(ConfigError::ZeroStride)
    } else if kernel > input {
        Err(ConfigError::KernelTooLarge)
    } else if (input - kernel) % stride != 0 {
        Err(ConfigError::NonIntegerOutputSize)
    } else {
        Ok((input - kernel) / stride + 1)
    }
}

/// Both spatial axes of `input` admit a `kernel`-wide window moved with
/// `stride`: strides tile each axis exactly, with the last window flush
/// against the edge.
pub open spec fn valid_window(input: Shape3, kernel: int, stride: int) -> bool {
    &&& 1 <= kernel
    &&& 1 <= stride
    &&& kernel <= input.w
    &&& kernel <= input.h
    &&& (input.w - kernel) % stride == 0
    &&& (input.h - kernel) % stride == 0
}

/// The configuration error a sliding-window geometry earns, variant by
/// variant: the exact condition under which `window_output_shape` returns
/// each error.
pub open spec fn window_error(input: Shape3, kernel: int, stride: int, e: ConfigError) -> bool {
    match e {
        ConfigError::ZeroKernel => kernel == 0,
        ConfigError::ZeroStride => kernel >= 1 && stride == 0,
        ConfigError::KernelTooLarge => kernel >= 1 && stride >= 1 && (kernel > input.w || kernel
            > input.h),
        ConfigError::NonIntegerOutputSize => kernel >= 1 && stride >= 1 && kernel <= input.w
            && kernel <= input.h && ((input.w - kernel) % stride != 0 || (input.h - kernel)
            % stride != 0),
        _ => false,
    }
}

/// The output shape a sliding window of the given geometry produces, with
/// output depth `depth`.
pub open spec fn window_shape(input: Shape3, kernel: int, stride: int, depth: int) -> Shape3 {
    Shape3 {
        w: spec_output_width(input.w as int, kernel, stride) as usize,
        h: spec_output_width(input.h as int, kernel, stride) as usize,
        d: depth as usize,
    }
}

/// The output shape of a sliding-window layer over `input`, with output
/// depth `depth`: the size rule applied to both spatial axes, rejecting any
/// configuration the rule does not accept.
pub fn window_output_shape(input: Shape3, kernel: usize, stride: usize, depth: usize) -> (r:
    Result<Shape3, ConfigError>)
    requires
        input.w < usize::MAX,
        input.h < usize::MAX,
    ensures
        match r {
            Ok(o) => valid_window(input, kernel as int, stride as int) && o == window_shape(
                input,
                kernel as int,
                stride as int,
                depth as int,
            ),
            Err(e) => window_error(input, kernel as int, stride as int, e),
        },
{
    if kernel == 0 {
        Err(ConfigError::ZeroKernel)
    } else if stride == 0 {
        Err(ConfigError::ZeroStride)
    } else if kernel > input.w || kernel > input.h {
        Err(ConfigError::KernelTooLarge)
    } else if (input.w - kernel) % stride != 0 || (input.h - kernel) % stride != 0 {
        Err(ConfigError::NonIntegerOutputSize)
    } else {
        Ok(Shape3 { w: (input.w - kernel) / stride + 1, h: (input.h - kernel) / stride + 1, d: depth })
    }
}

/// Every window cell of an accepted sliding-window axis lies inside the
/// input: position `x * stride + kx` is in range for output position `x`.
pub proof fn lemma_window_cell_in_bounds(input: int, kernel: int, stride: int, x: int, kx: int)
    requires
        1 <= stride,
        1 <= kernel,
        kernel <= input,
        (input - kernel) % stride == 0,
        0 <= x < spec_output_width(input, kernel, stride),
        0 <= kx < kernel,
    ensures
        0 <= x * stride,
        x * stride + kx < input,
{
    let q = (input - kernel) / stride;
    lemma_fundamental_div_mod(input - kernel, stride);
    assert(0 <= x * stride && x * stride <= q * stride) by (nonlinear_arith)
        requires
            0 <= x && x <= q && 1 <= stride;
    assert(q * stride == input - kernel) by (nonlinear_arith)
        requires
            input - kernel == stride * q + (input - kernel) % stride && (input - kernel) % stride
                == 0;
}

/// A shape bounded axis-wise by another has no greater volume.
pub proof fn lemma_volume_le(a: Shape3, b: Shape3) by (nonlinear_arith)
    requires
        a.w <= b.w,
        a.h <= b.h,
        a.d <= b.d,
    ensures
        a.volume() <= b.volume(),
{
}

/// An accepted output width never exceeds the input width.
pub proof fn lemma_output_width_le_input(input: int, kernel: int, stride: int)
    requires
        1 <= stride,
        1 <= kernel,
        kernel <= input,
    ensures
        spec_output_width(input, kernel, stride) <= input,
{
    assert((input - kernel) / stride <= input - kernel) by (nonlinear_arith)
        requires
            1 <= stride && 0 <= input - kernel;
}

/// The size rule is exact: along an axis accepted by `output_width`, the
/// output width `o` satisfies `(o - 1) * stride + kernel == input`, so the
/// window positions tile the axis with nothing left over.
pub proof fn lemma_output_width_exact(input: int, kernel: int, stride: int)
    requires
        0 < stride,
        0 <= kernel <= input,
        (input - kernel) % stride == 0,
    ensures
        (spec_output_width(input, kernel, stride) - 1) * stride + kernel == input,
        spec_output_width(input, kernel, stride) >= 1,
{
    let q = (input - kernel) / stride;
    assert((input - kernel) == q * stride) by (nonlinear_arith)
        requires 0 < stride && (input - kernel) % stride == 0 && q == (input - kernel) / stride;
    assert(q >= 0) by (nonlinear_arith)
        requires 0 < stride && input - kernel >= 0 && (input - kernel) == q * stride;
}

} // verus!
