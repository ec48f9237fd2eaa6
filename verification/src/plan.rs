use vstd::prelude::*;
use crate::activation::Activation;
use crate::error::ConfigError;
use crate::geometry::{
    Shape3, spec_output_width, valid_window, window_error, window_output_shape, window_shape,
};

verus! {

/// The stride every convolution layer of the chain is built with.
pub const CONV_STRIDE: usize = 1;

/// The stride every max-pooling layer of the chain is built with.
pub const MXPL_STRIDE: usize = 2;

/// The structural description of one layer of the chain: everything the
/// shape transitions depend on.  The learnable parameters themselves are
/// scalar tensors of the numeric engine, addressed by this description.
#[derive(Clone, Copy, PartialEq, Eq, Structural, Debug)]
pub enum LayerSpec {
    /// A convolution: `filters` kernels of `kernel x kernel` cells slid
    /// with `stride` over `input`.
    Conv { input: Shape3, kernel: usize, stride: usize, filters: usize, output: Shape3 },
    /// A max-pooling window of `kernel x kernel` cells slid with `stride`.
    Mxpl { input: Shape3, kernel: usize, stride: usize, output: Shape3 },
    /// A dense layer from `input_size` inputs to `output_size` outputs.
    /// `transition_shape` is the volumetric shape its flat input stands
    /// for, used when backward propagation crosses back out of the dense
    /// part of the chain; `dropout` records whether a dropout mask is
    /// applied during training.
    Dense {
        input_size: usize,
        output_size: usize,
        activation: Activation,
        dropout: bool,
        transition_shape: Shape3,
    },
}

impl LayerSpec {
    /// The volumetric shape this layer produces: a dense layer's flat
    /// output of `n` values stands for the shape `(n, 1, 1)`.
    pub open spec fn out_shape(self) -> Shape3 {
        match self {
            LayerSpec::Conv { output, .. } => output,
            LayerSpec::Mxpl { output, .. } => output,
            LayerSpec::Dense { output_size, .. } => Shape3 { w: output_size, h: 1, d: 1 },
        }
    }

    /// The layer's geometry is internally consistent: window layers obey
    /// the sliding-window size rule with shapes that fit the machine, and a
    /// dense layer's transition shape flattens to its input width.
    pub open spec fn wf(self) -> bool {
        match self {
            LayerSpec::Conv { input, kernel, stride, filters, output } => {
                &&& valid_window(input, kernel as int, stride as int)
                &&& output == window_shape(input, kernel as int, stride as int, filters as int)
                &&& input.volume() <= usize::MAX
                &&& output.volume() <= usize::MAX
            },
            LayerSpec::Mxpl { input, kernel, stride, output } => {
                &&& valid_window(input, kernel as int, stride as int)
                &&& output == window_shape(input, kernel as int, stride as int, input.d as int)
                &&& input.volume() <= usize::MAX
                &&& output.volume() <= usize::MAX
            },
            LayerSpec::Dense { input_size, transition_shape, .. } => transition_shape.volume()
                == input_size,
        }
    }

    /// This layer accepts what a layer producing `prev_out` hands on: a
    /// window layer takes the shape itself, a dense layer takes its
    /// flattening, recorded as the transition shape.
    pub open spec fn follows(self, prev_out: Shape3) -> bool {
        match self {
            LayerSpec::Conv { input, .. } => input == prev_out,
            LayerSpec::Mxpl { input, .. } => input == prev_out,
            LayerSpec::Dense { input_size, transition_shape, .. } => {
                &&& input_size == prev_out.volume()
                &&& transition_shape == prev_out
            },
        }
    }

    /// The volumetric shape this layer produces.
    pub fn output_shape(&self) -> (r: Shape3)
        ensures
            r == self.out_shape(),
    {
        match self {
            LayerSpec::Conv { output, .. } => *output,
            LayerSpec::Mxpl { output, .. } => *output,
            LayerSpec::Dense { output_size, .. } => Shape3 { w: *output_size, h: 1, d: 1 },
        }
    }
}

/// The convolution layer description `add_conv_layer` appends on success.
pub open spec fn conv_spec(input: Shape3, kernel: usize, filters: usize) -> LayerSpec {
    LayerSpec::Conv {
        input,
        kernel,
        stride: CONV_STRIDE,
        filters,
        output: window_shape(input, kernel as int, CONV_STRIDE as int, filters as int),
    }
}

/// The max-pooling layer description `add_mxpl_layer` appends on success.
pub open spec fn mxpl_spec(input: Shape3, kernel: usize) -> LayerSpec {
    LayerSpec::Mxpl {
        input,
        kernel,
        stride: MXPL_STRIDE,
        output: window_shape(input, kernel as int, MXPL_STRIDE as int, input.d as int),
    }
}

/// The ordered layer chain of a network, as its structural description.
/// The topology is fixed by the add-layer calls, each of which validates
/// its layer against the chain so far: a well-formed plan chains exactly,
/// every layer consuming the shape the previous one produces.
pub struct NetworkPlan {
    pub layers: Vec<LayerSpec>,
}

impl NetworkPlan {
    /// Every layer is internally consistent and consumes what the previous
    /// layer produces.
    pub open spec fn wf(self) -> bool {
        forall|i: int|
            0 <= i < self.layers@.len() ==> (#[trigger] self.layers@[i]).wf() && (i == 0
                || self.layers@[i].follows(self.layers@[i - 1].out_shape()))
    }

    /// An empty chain.
    pub fn new() -> (r: NetworkPlan)
        ensures
            r.wf(),
            r.layers@.len() == 0,
    {
        NetworkPlan { layers: Vec::new() }
    }

    /// The chain so far can feed a layer that declares `input`: either the
    /// chain is empty, or its last layer produces exactly `input`.
    fn matches_previous(&self, input: Shape3) -> (r: bool)
        requires
            self.wf(),
        ensures
            r == (self.layers@.len() == 0 || self.layers@.last().out_shape() == input),
    {
        if self.layers.len() == 0 {
            true
        } else {
            let prev = self.layers[self.layers.len() - 1].output_shape();
            prev.w == input.w && prev.h == input.h && prev.d == input.d
        }
    }

    /// Appends a convolution layer of `num_filters` kernels of size
    /// `kernel_size`, slid with the fixed convolution stride, validating
    /// that `input_size` is what the chain produces so far and that the
    /// window geometry obeys the size rule.  On failure the chain is
    /// unchanged.
    pub fn add_conv_layer(
        &mut self,
        input_size: Shape3,
        num_filters: usize,
        kernel_size: usize,
    ) -> (r: Result<(), ConfigError>)
        requires
            old(self).wf(),
            input_size.w < usize::MAX,
            input_size.h < usize::MAX,
            input_size.volume() <= usize::MAX,
            spec_output_width(input_size.w as int, kernel_size as int, CONV_STRIDE as int)
                * spec_output_width(input_size.h as int, kernel_size as int, CONV_STRIDE as int)
                * num_filters <= usize::MAX,
        ensures
            final(self).wf(),
            match r {
                Ok(()) => (old(self).layers@.len() == 0 || input_size == old(
                    self,
                ).layers@.last().out_shape()) && final(self).layers@ == old(self).layers@.push(
                    conv_spec(input_size, kernel_size, num_filters),
                ),
                Err(e) => final(self).layers@ == old(self).layers@ && match e {
                    ConfigError::ShapeMismatch => old(self).layers@.len() > 0 && input_size != old(
                        self,
                    ).layers@.last().out_shape(),
                    _ => (old(self).layers@.len() == 0 || input_size == old(
                        self,
                    ).layers@.last().out_shape()) && window_error(
                        input_size,
                        kernel_size as int,
                        CONV_STRIDE as int,
                        e,
                    ),
                },
            },
    {
        if !self.matches_previous(input_size) {
            return Err(ConfigError::ShapeMismatch);
        }
        let output = match window_output_shape(input_size, kernel_size, CONV_STRIDE, num_filters) {
            Ok(o) => o,
            Err(e) => {
                return Err(e);
            },
        };
        self.layers.push(
            LayerSpec::Conv {
                input: input_size,
                kernel: kernel_size,
                stride: CONV_STRIDE,
                filters: num_filters,
                output,
            },
        );
        Ok(())
    }

    /// Appends a max-pooling layer of window size `kernel_size`, slid with
    /// the fixed pooling stride, validating like `add_conv_layer`.  On
    /// failure the chain is unchanged.
    pub fn add_mxpl_layer(&mut self, input_size: Shape3, kernel_size: usize) -> (r: Result<
        (),
        ConfigError,
    >)
        requires
            old(self).wf(),
            input_size.w < usize::MAX,
            input_size.h < usize::MAX,
            input_size.volume() <= usize::MAX,
        ensures
            final(self).wf(),
            match r {
                Ok(()) => (old(self).layers@.len() == 0 || input_size == old(
                    self,
                ).layers@.last().out_shape()) && final(self).layers@ == old(self).layers@.push(
                    mxpl_spec(input_size, kernel_size),
                ),
                Err(e) => final(self).layers@ == old(self).layers@ && match e {
                    ConfigError::ShapeMismatch => old(self).layers@.len() > 0 && input_size != old(
                        self,
                    ).layers@.last().out_shape(),
                    _ => (old(self).layers@.len() == 0 || input_size == old(
                        self,
                    ).layers@.last().out_shape()) && window_error(
                        input_size,
                        kernel_size as int,
                        MXPL_STRIDE as int,
                        e,
                    ),
                },
            },
    {
        if !self.matches_previous(input_size) {
            return Err(ConfigError::ShapeMismatch);
        }
        let output = match window_output_shape(input_size, kernel_size, MXPL_STRIDE, input_size.d) {
            Ok(o) => o,
            Err(e) => {
                return Err(e);
            },
        };
        proof {
            crate::geometry::lemma_output_width_le_input(
                input_size.w as int,
                kernel_size as int,
                MXPL_STRIDE as int,
            );
            crate::geometry::lemma_output_width_le_input(
                input_size.h as int,
                kernel_size as int,
                MXPL_STRIDE as int,
            );
            crate::geometry::lemma_volume_le(output, input_size);
        }
        self.layers.push(
            LayerSpec::Mxpl {
                input: input_size,
                kernel: kernel_size,
                stride: MXPL_STRIDE,
                output,
            },
        );
        Ok(())
    }

    /// Appends a dense layer from `input_size` inputs to `output_size`
    /// outputs, validating that `input_size` is the flattening of what the
    /// chain produces so far.  The transition shape is the previous layer's
    /// volumetric output shape, or `(input_size, 1, 1)` at the head of the
    /// chain or after another dense layer.  On failure the chain is
    /// unchanged.
    pub fn add_dense_layer(
        &mut self,
        input_size: usize,
        output_size: usize,
        activation: Activation,
        dropout: bool,
    ) -> (r: Result<(), ConfigError>)
        requires
            old(self).wf(),
        ensures
            final(self).wf(),
            match r {
                Ok(()) => {
                    &&& (old(self).layers@.len() == 0 || input_size == old(
                        self,
                    ).layers@.last().out_shape().volume())
                    &&& final(self).layers@ == old(self).layers@.push(
                        LayerSpec::Dense {
                            input_size,
                            output_size,
                            activation,
                            dropout,
                            transition_shape: if old(self).layers@.len() == 0 {
                                Shape3 { w: input_size, h: 1, d: 1 }
                            } else {
                                old(self).layers@.last().out_shape()
                            },
                        },
                    )
                },
                Err(e) => {
                    &&& e == ConfigError::ShapeMismatch
                    &&& final(self).layers@ == old(self).layers@
                    &&& old(self).layers@.len() > 0
                    &&& input_size != old(self).layers@.last().out_shape().volume()
                },
            },
    {
        let transition_shape: Shape3;
        if self.layers.len() == 0 {
            transition_shape = Shape3 { w: input_size, h: 1, d: 1 };
            proof {
                assert(transition_shape.volume() == input_size) by (nonlinear_arith)
                    requires
                        transition_shape.w == input_size && transition_shape.h == 1
                            && transition_shape.d == 1;
            }
        } else {
            let prev = self.layers[self.layers.len() - 1].output_shape();
            proof {
                let last = self.layers@[self.layers@.len() - 1];
                assert(last.wf());
                assert(prev == last.out_shape());
                match last {
                    LayerSpec::Dense { output_size, .. } => {
                        assert(prev.volume() == output_size) by (nonlinear_arith)
                            requires
                                prev.w == output_size && prev.h == 1 && prev.d == 1;
                    },
                    _ => {},
                }
            }
            if prev.num_cells() != input_size {
                return Err(ConfigError::ShapeMismatch);
            }
            transition_shape = prev;
        }
        self.layers.push(
            LayerSpec::Dense { input_size, output_size, activation, dropout, transition_shape },
        );
        Ok(())
    }

    /// The volumetric shape the whole chain produces, if it has any layer.
    pub fn output_shape(&self) -> (r: Option<Shape3>)
        ensures
            match r {
                Some(s) => self.layers@.len() > 0 && s == self.layers@.last().out_shape(),
                None => self.layers@.len() == 0,
            },
    {
        if self.layers.len() == 0 {
            None
        } else {
            Some(self.layers[self.layers.len() - 1].output_shape())
        }
    }

    /// The width of the class-probability vector the chain produces: the
    /// output size of its final layer, provided that layer is dense.
    /// Reading the classifier output of a chain that does not end in a
    /// dense layer is a configuration error, reported as `None`.
    pub fn output_size(&self) -> (r: Option<usize>)
        ensures
            match r {
                Some(n) => self.layers@.len() > 0 && (self.layers@.last()
                    matches LayerSpec::Dense { output_size, .. } && n == output_size),
                None => self.layers@.len() == 0 || !(self.layers@.last()
                    matches LayerSpec::Dense { .. }),
            },
    {
        if self.layers.len() == 0 {
            return None;
        }
        match self.layers[self.layers.len() - 1] {
            LayerSpec::Dense { output_size, .. } => Some(output_size),
            _ => None,
        }
    }
}

} // verus!
