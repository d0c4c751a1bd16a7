//! Layout of a feed-forward network: layer sizes and activation kinds.

use vstd::prelude::*;

verus! {

/// Kind of activation applied after a layer.
#[derive(Clone, Copy, PartialEq, Eq, Debug)]
pub enum ActivationFunction {
    /// Passes its argument through.
    Identity,
    /// The greater of zero and the argument.
    ReLU,
    /// Hyperbolic tangent.
    Tanh,
    /// Logistic function.
    Sigmoid,
}

/// Why a layout was refused.
#[derive(Clone, Copy, PartialEq, Eq, Debug)]
pub enum TopologyError {
    /// Fewer than two layer sizes were given, so no layer maps an input to
    /// an output.
    TooFewLayers,
}

/// Mathematical layout: the layer sizes in order and the two activations.
pub struct Layout {
    pub layers: Seq<usize>,
    pub hidden: ActivationFunction,
    pub output: ActivationFunction,
}

impl Layout {
    /// A layout has an input and an output layer at least.
    pub open spec fn valid(self) -> bool {
        self.layers.len() >= 2
    }

    /// Number of weight matrices: one between each two consecutive layers.
    pub open spec fn stages(self) -> nat {
        (self.layers.len() - 1) as nat
    }

    /// Length of the vector that inference takes.
    pub open spec fn input_size(self) -> usize {
        self.layers[0]
    }

    /// Length of the vector that inference gives.
    pub open spec fn output_size(self) -> usize {
        self.layers[self.layers.len() - 1]
    }

    /// Rows and columns of the weight matrix of stage `k`: one row for each
    /// neuron of the layer that follows, one column for each neuron of the
    /// layer before. The bias vector of the stage has as many entries as the
    /// matrix has rows.
    pub open spec fn weight_shape(self, k: int) -> (usize, usize) {
        (self.layers[k + 1], self.layers[k])
    }

    /// The activation after stage `k`: the output activation after the last
    /// stage, the hidden activation after every other.
    pub open spec fn activation_at(self, k: int) -> ActivationFunction {
        if k == self.stages() - 1 {
            self.output
        } else {
            self.hidden
        }
    }
}

/// Each stage takes as many values as the stage before it gives, the first
/// takes `input_size` values and the last gives `output_size` values.
pub proof fn stages_chain(layout: Layout)
    requires
        layout.valid(),
    ensures
        layout.weight_shape(0).1 == layout.input_size(),
        layout.weight_shape(layout.stages() - 1).0 == layout.output_size(),
        forall|k: int|
            0 <= k < layout.stages() - 1 ==> (#[trigger] layout.weight_shape(k)).0
                == layout.weight_shape(k + 1).1,
{
}

/// A validated network layout. It is fixed when it is built.
#[derive(Debug)]
pub struct Topology {
    layers: Vec<usize>,
    hidden: ActivationFunction,
    output: ActivationFunction,
}

impl View for Topology {
    type V = Layout;

    closed spec fn view(&self) -> Layout {
        Layout { layers: self.layers@, hidden: self.hidden, output: self.output }
    }
}

impl Topology {
    /// Holds of every value of this type.
    #[verifier::type_invariant]
    pub open spec fn inv(self) -> bool {
        self@.valid()
    }

    /// Builds a layout from its layer sizes and activations. It is refused
    /// exactly when fewer than two sizes are given.
    pub fn new(
        layer_sizes: Vec<usize>,
        hidden: ActivationFunction,
        output: ActivationFunction,
    ) -> (r: Result<Topology, TopologyError>)
        ensures
            r is Ok <==> layer_sizes@.len() >= 2,
            r matches Ok(t) ==> t@ == (Layout { layers: layer_sizes@, hidden, output })
                && t@.valid(),
            r matches Err(e) ==> e == TopologyError::TooFewLayers,
    {
        if layer_sizes.len() < 2 {
            Err(TopologyError::TooFewLayers)
        } else {
            Ok(Topology { layers: layer_sizes, hidden, output })
        }
    }

    /// The layer sizes in order.
    pub fn layer_sizes(&self) -> (sizes: &Vec<usize>)
        ensures
            sizes@ == self@.layers,
            self@.valid(),
    {
        proof {
            use_type_invariant(self);
        }
        &self.layers
    }

    /// The activation of the hidden stages.
    pub fn hidden_activation(&self) -> (a: ActivationFunction)
        ensures
            a == self@.hidden,
    {
        self.hidden
    }

    /// The activation of the last stage.
    pub fn output_activation(&self) -> (a: ActivationFunction)
        ensures
            a == self@.output,
    {
        self.output
    }

    /// Number of stages, each with a weight matrix and a bias vector.
    pub fn stages(&self) -> (n: usize)
        ensures
            n == self@.stages(),
            n >= 1,
    {
        proof {
            use_type_invariant(self);
        }
        self.layers.len() - 1
    }

    /// Length of the vector that inference takes.
    pub fn input_size(&self) -> (n: usize)
        ensures
            n == self@.input_size(),
    {
        proof {
            use_type_invariant(self);
        }
        self.layers[0]
    }

    /// Length of the vector that inference gives.
    pub fn output_size(&self) -> (n: usize)
        ensures
            n == self@.output_size(),
    {
        proof {
            use_type_invariant(self);
        }
        self.layers[self.layers.len() - 1]
    }

    /// Whether a vector of `len` values can be fed to inference.
    pub fn accepts_input(&self, len: usize) -> (ok: bool)
        ensures
            ok == (len == self@.input_size()),
    {
        len == self.input_size()
    }

    /// Rows and columns of the weight matrix of stage `k`, if there is such a
    /// stage.
    pub fn weight_shape(&self, k: usize) -> (shape: Option<(usize, usize)>)
        ensures
            shape is Some <==> k < self@.stages(),
            shape matches Some(s) ==> s == self@.weight_shape(k as int),
    {
        proof {
            use_type_invariant(self);
        }
        if k < self.layers.len() - 1 {
            Some((self.layers[k + 1], self.layers[k]))
        } else {
            None
        }
    }

    /// The activation applied after stage `k`, if there is such a stage.
    pub fn activation_at(&self, k: usize) -> (a: Option<ActivationFunction>)
        ensures
            a is Some <==> k < self@.stages(),
            a matches Some(f) ==> f == self@.activation_at(k as int),
    {
        proof {
            use_type_invariant(self);
        }
        let last: usize = self.layers.len() - 2;
        if k < last {
            Some(self.hidden)
        } else if k == last {
            Some(self.output)
        } else {
            None
        }
    }
}

} // verus!
