use oxi_net::activation::Activation;
use oxi_net::dropout::dropout_mask;
use oxi_net::error::ConfigError;
use oxi_net::geometry::{output_width, window_output_shape, Shape3};
use oxi_net::maxpool::MaxPoolingLayer;
use oxi_net::optimizer::{OptimizerKind, OptimizerState};
use oxi_net::plan::{LayerSpec, NetworkPlan};
use oxi_net::schedule::{
    every_n_interval, mid_epoch_save_due, minibatch_update_due, AccCount, SaveAction,
    SavingStrategy, TrainState,
};
use oxi_net::util::{flatten, idx_to_state, one_hot, state_to_idx, unflatten};

fn shape(w: usize, h: usize, d: usize) -> Shape3 {
    Shape3 { w, h, d }
}

#[test]
fn output_width_formula_exact() {
    assert_eq!(output_width(28, 5, 1), Ok(24));
    assert_eq!(output_width(24, 2, 2), Ok(12));
    assert_eq!(output_width(12, 3, 1), Ok(10));
    assert_eq!(output_width(10, 2, 2), Ok(5));
    assert_eq!(output_width(7, 7, 3), Ok(1));
}

#[test]
fn output_width_rejects_non_integer() {
    assert_eq!(output_width(5, 2, 2), Err(ConfigError::NonIntegerOutputSize));
    assert_eq!(output_width(28, 5, 3), Err(ConfigError::NonIntegerOutputSize));
}

#[test]
fn output_width_rejects_zero_stride() {
    assert_eq!(output_width(28, 5, 0), Err(ConfigError::ZeroStride));
}

#[test]
fn output_width_rejects_large_kernel() {
    assert_eq!(output_width(4, 5, 1), Err(ConfigError::KernelTooLarge));
}

#[test]
fn window_shape_rejects_zero_kernel() {
    assert_eq!(
        window_output_shape(shape(8, 8, 3), 0, 1, 4),
        Err(ConfigError::ZeroKernel)
    );
}

#[test]
fn window_shape_both_axes() {
    assert_eq!(window_output_shape(shape(28, 20, 1), 5, 1, 6), Ok(shape(24, 16, 6)));
    assert_eq!(
        window_output_shape(shape(28, 21, 1), 5, 2, 6),
        Err(ConfigError::NonIntegerOutputSize)
    );
}

#[test]
fn conv_then_pool_shape_scenario() {
    // A 28x28x1 input through Conv(6 filters, 5x5, stride 1) and then
    // MaxPool(2x2, stride 2) must come out as 12x12x6.
    let mut plan = NetworkPlan::new();
    plan.add_conv_layer(shape(28, 28, 1), 6, 5).unwrap();
    assert_eq!(plan.output_shape(), Some(shape(24, 24, 6)));
    plan.add_mxpl_layer(shape(24, 24, 6), 2).unwrap();
    assert_eq!(plan.output_shape(), Some(shape(12, 12, 6)));
}

#[test]
fn plan_rejects_shape_mismatch() {
    let mut plan = NetworkPlan::new();
    plan.add_conv_layer(shape(28, 28, 1), 6, 5).unwrap();
    assert_eq!(
        plan.add_mxpl_layer(shape(28, 28, 6), 2),
        Err(ConfigError::ShapeMismatch)
    );
    // The failed add leaves the chain as it was.
    assert_eq!(plan.output_shape(), Some(shape(24, 24, 6)));
}

#[test]
fn plan_dense_transition_shape() {
    let mut plan = NetworkPlan::new();
    plan.add_conv_layer(shape(28, 28, 1), 6, 5).unwrap();
    plan.add_mxpl_layer(shape(24, 24, 6), 2).unwrap();
    plan.add_dense_layer(864, 10, Activation::Softmax, false).unwrap();
    assert_eq!(plan.output_size(), Some(10));
    match plan.layers[2] {
        LayerSpec::Dense { transition_shape, input_size, .. } => {
            assert_eq!(transition_shape, shape(12, 12, 6));
            assert_eq!(input_size, 864);
        }
        _ => panic!("expected a dense layer"),
    }
}

#[test]
fn plan_dense_rejects_wrong_width() {
    let mut plan = NetworkPlan::new();
    plan.add_conv_layer(shape(28, 28, 1), 6, 5).unwrap();
    assert_eq!(
        plan.add_dense_layer(100, 10, Activation::Relu, false),
        Err(ConfigError::ShapeMismatch)
    );
}

#[test]
fn plan_dense_first_layer() {
    let mut plan = NetworkPlan::new();
    plan.add_dense_layer(2, 15, Activation::Relu, false).unwrap();
    plan.add_dense_layer(15, 4, Activation::Softmax, false).unwrap();
    assert_eq!(plan.output_size(), Some(4));
    match plan.layers[0] {
        LayerSpec::Dense { transition_shape, .. } => {
            assert_eq!(transition_shape, shape(2, 1, 1));
        }
        _ => panic!("expected a dense layer"),
    }
    // A chain ending in a window layer has no classifier output.
    let mut conv_only = NetworkPlan::new();
    conv_only.add_conv_layer(shape(8, 8, 1), 2, 3).unwrap();
    assert_eq!(conv_only.output_size(), None);
    assert_eq!(NetworkPlan::new().output_shape(), None);
}

#[test]
fn maxpool_rejects_bad_geometry() {
    assert!(matches!(
        MaxPoolingLayer::new(shape(5, 5, 1), 2, 2),
        Err(ConfigError::NonIntegerOutputSize)
    ));
    assert!(matches!(
        MaxPoolingLayer::new(shape(5, 5, 1), 0, 2),
        Err(ConfigError::ZeroKernel)
    ));
    assert!(matches!(
        MaxPoolingLayer::new(shape(5, 5, 1), 2, 0),
        Err(ConfigError::ZeroStride)
    ));
    assert!(matches!(
        MaxPoolingLayer::new(shape(5, 5, 1), 6, 1),
        Err(ConfigError::KernelTooLarge)
    ));
}

#[test]
fn maxpool_forward_picks_window_maxima() {
    let mut layer = MaxPoolingLayer::new(shape(4, 4, 1), 2, 2).unwrap();
    assert_eq!(layer.output_size, shape(2, 2, 1));
    // Input plane, indexed [x][y], flattened in row-major (x, y) order.
    let mut input = vec![0.0f32; 16];
    let set = |v: &mut Vec<f32>, x: usize, y: usize, val: f32| v[x * 4 + y] = val;
    set(&mut input, 0, 0, 0.1);
    set(&mut input, 1, 1, 0.9);
    set(&mut input, 0, 2, 0.7);
    set(&mut input, 1, 3, 0.2);
    set(&mut input, 2, 0, 0.4);
    set(&mut input, 3, 1, 0.3);
    set(&mut input, 2, 2, 0.5);
    set(&mut input, 3, 3, 0.8);
    let out = layer.forward_propagate(&input, -1.0f32, |a: f32, b: f32| a > b);
    assert_eq!(out.len(), 4);
    assert_eq!(out[0], 0.9); // window at (0,0): max is input[1][1]
    assert_eq!(out[1], 0.7); // window at (0,1): max is input[0][2]
    assert_eq!(out[2], 0.4); // window at (1,0): max is input[2][0]
    assert_eq!(out[3], 0.8); // window at (1,1): max is input[3][3]
    assert_eq!(layer.highest_indices[0], (1, 1));
    assert_eq!(layer.highest_indices[1], (0, 2));
    assert_eq!(layer.highest_indices[2], (2, 0));
    assert_eq!(layer.highest_indices[3], (3, 3));
}

#[test]
fn maxpool_forward_keeps_sentinel_when_nothing_beats_it() {
    let mut layer = MaxPoolingLayer::new(shape(2, 2, 1), 2, 2).unwrap();
    let input = vec![-5.0f32, -6.0, -7.0, -8.0];
    let out = layer.forward_propagate(&input, -1.0f32, |a: f32, b: f32| a > b);
    assert_eq!(out, vec![-1.0f32]);
    assert_eq!(layer.highest_indices[0], (0, 0));
}

#[test]
fn maxpool_forward_deterministic() {
    // Fixed parameters, identical input: two forward passes agree bit for
    // bit.
    let input: Vec<f32> = (0..36).map(|i| ((i * 7919) % 36) as f32 / 36.0).collect();
    let mut a = MaxPoolingLayer::new(shape(6, 6, 1), 2, 2).unwrap();
    let mut b = MaxPoolingLayer::new(shape(6, 6, 1), 2, 2).unwrap();
    let out_a = a.forward_propagate(&input, -1.0f32, |x: f32, y: f32| x > y);
    let out_b = b.forward_propagate(&input, -1.0f32, |x: f32, y: f32| x > y);
    let bits_a: Vec<u32> = out_a.iter().map(|v| v.to_bits()).collect();
    let bits_b: Vec<u32> = out_b.iter().map(|v| v.to_bits()).collect();
    assert_eq!(bits_a, bits_b);
    assert_eq!(a.highest_indices, b.highest_indices);
}

#[test]
fn maxpool_backward_relocates_error() {
    // With no two equal values in any pooling window, backward neither
    // creates nor destroys error: the sum over the scattered tensor equals
    // the sum over the incoming error.
    let mut layer = MaxPoolingLayer::new(shape(4, 4, 2), 2, 2).unwrap();
    let mut input = vec![0.0f32; 32];
    for (i, v) in input.iter_mut().enumerate() {
        *v = ((i * 31 + 7) % 32) as f32 / 32.0; // pairwise distinct values
    }
    layer.forward_propagate(&input, -1.0f32, |a: f32, b: f32| a > b);
    let error: Vec<f32> = (0..8).map(|i| (i as f32) * 0.25 + 0.125).collect();
    let back = layer.back_propagate(&error, 0.0f32);
    assert_eq!(back.len(), 32);
    let sum_error: f32 = error.iter().sum();
    let sum_back: f32 = back.iter().sum();
    assert!((sum_error - sum_back).abs() < 1e-6);
    // Exactly the scattered positions are non-zero.
    assert_eq!(back.iter().filter(|v| **v != 0.0).count(), 8);
}

#[test]
fn maxpool_backward_routes_to_argmax() {
    let mut layer = MaxPoolingLayer::new(shape(4, 4, 1), 2, 2).unwrap();
    let mut input = vec![0.0f32; 16];
    input[1 * 4 + 1] = 0.9; // argmax of window (0,0)
    input[0 * 4 + 2] = 0.7; // argmax of window (0,1)
    input[2 * 4 + 0] = 0.4; // argmax of window (1,0)
    input[3 * 4 + 3] = 0.8; // argmax of window (1,1)
    layer.forward_propagate(&input, -1.0f32, |a: f32, b: f32| a > b);
    let error = vec![10.0f32, 20.0, 30.0, 40.0];
    let back = layer.back_propagate(&error, 0.0f32);
    assert_eq!(back[1 * 4 + 1], 10.0);
    assert_eq!(back[0 * 4 + 2], 20.0);
    assert_eq!(back[2 * 4 + 0], 30.0);
    assert_eq!(back[3 * 4 + 3], 40.0);
    assert_eq!(back.iter().filter(|v| **v != 0.0).count(), 4);
}

#[test]
fn maxpool_zero_resets_cache() {
    let mut layer = MaxPoolingLayer::new(shape(4, 4, 1), 2, 2).unwrap();
    let input: Vec<f32> = (0..16).map(|i| i as f32).collect();
    layer.forward_propagate(&input, -1.0f32, |a: f32, b: f32| a > b);
    assert_ne!(layer.highest_indices[0], (0, 0));
    layer.zero();
    assert!(layer.highest_indices.iter().all(|c| *c == (0, 0)));
    let mut copy = MaxPoolingLayer::new(shape(4, 4, 1), 2, 2).unwrap();
    copy.update(32);
    assert_eq!(copy.highest_indices, vec![(0, 0); 4]);
}

#[test]
fn flatten_is_row_major() {
    // nested[x][y][z] lands at (x * h + y) * d + z.
    let nested = vec![
        vec![vec![0.0f32, 1.0], vec![2.0, 3.0], vec![4.0, 5.0]],
        vec![vec![6.0, 7.0], vec![8.0, 9.0], vec![10.0, 11.0]],
    ];
    let flat = flatten(&nested, shape(2, 3, 2));
    let expect: Vec<f32> = (0..12).map(|i| i as f32).collect();
    assert_eq!(flat, expect);
}

#[test]
fn flatten_unflatten_round_trip() {
    let s = shape(3, 4, 5);
    let flat: Vec<i64> = (0..60).map(|i| (i * i) as i64 - 17).collect();
    let nested = unflatten(&flat, s);
    assert_eq!(nested.len(), 3);
    assert!(nested.iter().all(|p| p.len() == 4 && p.iter().all(|r| r.len() == 5)));
    let back = flatten(&nested, s);
    assert_eq!(back, flat);
}

#[test]
fn one_hot_exact() {
    assert_eq!(one_hot(2usize, 4usize, 0.0f32, 1.0f32), vec![0.0, 0.0, 1.0, 0.0]);
    assert_eq!(one_hot(0usize, 3usize, 0u8, 1u8), vec![1, 0, 0]);
    // A label beyond the width leaves the vector all zero.
    assert_eq!(one_hot(7usize, 3usize, 0u8, 1u8), vec![0, 0, 0]);
}

#[test]
fn optimizer_step_counts_and_freezes() {
    let mut st = OptimizerState::new(OptimizerKind::Adam);
    assert_eq!(st.t, 0);
    assert!(!st.beta1_done && !st.beta2_done);
    let (c1, c2) = st.step(false, false);
    assert!(c1 && c2);
    assert_eq!(st.t, 1);
    // The step where the power first falls below the threshold still
    // applies the correction, and freezes it from the next step on.
    let (c1, c2) = st.step(true, false);
    assert!(c1 && c2);
    assert!(st.beta1_done && !st.beta2_done);
    let (c1, c2) = st.step(false, true);
    assert!(!c1 && c2);
    let (c1, c2) = st.step(false, false);
    assert!(!c1 && !c2);
    assert_eq!(st.t, 4);
    assert!(st.beta1_done && st.beta2_done);
}

#[test]
fn minibatch_trigger() {
    assert!(minibatch_update_due(9, 10));
    assert!(minibatch_update_due(19, 10));
    assert!(!minibatch_update_due(10, 10));
    assert!(!minibatch_update_due(0, 10));
    assert!(minibatch_update_due(0, 1));
}

#[test]
fn mid_epoch_interval() {
    // A tenth of a 60000-example epoch saves every 6000 examples.
    assert_eq!(every_n_interval(60000, 1, 10), 6000);
    assert_eq!(every_n_interval(48, 1, 3), 16);
    assert_eq!(every_n_interval(50, 1, 3), 16); // whole examples only
    assert!(mid_epoch_save_due(5999, 6000));
    assert!(!mid_epoch_save_due(6000, 6000));
}

#[test]
fn accuracy_comparison_exact() {
    let a = AccCount { correct: 3, total: 10 };
    let b = AccCount { correct: 1, total: 4 };
    assert!(a.gt(&b)); // 0.3 > 0.25
    assert!(!b.gt(&a));
    let c = AccCount { correct: 6, total: 20 };
    assert!(!a.gt(&c)); // equal ratios do not beat each other
    assert!(!c.gt(&a));
    let zero = AccCount { correct: 0, total: 0 };
    assert!(a.gt(&zero));
    assert!(!zero.gt(&a));
    assert!(!AccCount { correct: 0, total: 5 }.gt(&zero));
}

#[test]
fn record_epoch_every_epoch() {
    let mut ts = TrainState::new(10, 3, SavingStrategy::EveryEpoch(true));
    let train = AccCount { correct: 5, total: 10 };
    let test = AccCount { correct: 4, total: 10 };
    assert_eq!(ts.record_epoch(train, test, 3), SaveAction::Full);
    let mut ts2 = TrainState::new(10, 3, SavingStrategy::EveryEpoch(false));
    assert_eq!(ts2.record_epoch(train, test, 3), SaveAction::MetadataOnly);
    assert_eq!(ts2.training_history, vec![train]);
    assert_eq!(ts2.testing_history, vec![test]);
    assert_eq!(ts2.time_history, vec![3]);
}

#[test]
fn record_epoch_best_training() {
    let mut ts = TrainState::new(10, 3, SavingStrategy::BestTrainingAccuracy(true));
    let a1 = AccCount { correct: 5, total: 10 };
    let a2 = AccCount { correct: 4, total: 10 };
    let a3 = AccCount { correct: 7, total: 10 };
    let t = AccCount { correct: 1, total: 10 };
    assert_eq!(ts.record_epoch(a1, t, 1), SaveAction::Full); // beats the zero start
    assert_eq!(ts.best_train, a1);
    assert_eq!(ts.record_epoch(a2, t, 2), SaveAction::MetadataOnly); // worse epoch
    assert_eq!(ts.best_train, a1);
    assert_eq!(ts.record_epoch(a3, t, 3), SaveAction::Full); // new best
    assert_eq!(ts.best_train, a3);
    assert_eq!(ts.training_history.len(), 3);
}

#[test]
fn record_epoch_best_testing_and_never() {
    let mut ts = TrainState::new(10, 3, SavingStrategy::BestTestingAccuracy(false));
    let tr = AccCount { correct: 5, total: 10 };
    let te1 = AccCount { correct: 6, total: 10 };
    let te2 = AccCount { correct: 2, total: 10 };
    assert_eq!(ts.record_epoch(tr, te1, 1), SaveAction::MetadataOnly); // improved, metadata configured
    assert_eq!(ts.best_test, te1);
    assert_eq!(ts.record_epoch(tr, te2, 2), SaveAction::MetadataOnly);
    assert_eq!(ts.best_test, te1);
    let mut never = TrainState::new(10, 3, SavingStrategy::Never);
    assert_eq!(never.record_epoch(tr, te1, 1), SaveAction::NoSave);
    let mut nth = TrainState::new(10, 3, SavingStrategy::EveryNthEpoch(true, 1, 10));
    assert_eq!(nth.record_epoch(tr, te1, 1), SaveAction::NoSave);
}

#[test]
fn dropout_mask_degenerate_rates() {
    let none = dropout_mask(64, 0, 100);
    assert_eq!(none.len(), 64);
    assert!(none.iter().all(|k| *k));
    let all = dropout_mask(64, 100, 100);
    assert_eq!(all.len(), 64);
    assert!(all.iter().all(|k| !*k));
    assert_eq!(dropout_mask(0, 1, 4).len(), 0);
    assert_eq!(dropout_mask(33, 1, 4).len(), 33);
}

#[test]
fn state_names_round_trip() {
    for i in 0..50 {
        let name = idx_to_state(i);
        assert_eq!(state_to_idx(name), i);
    }
    assert_eq!(idx_to_state(0), "Alabama");
    assert_eq!(idx_to_state(49), "Wyoming");
    assert_eq!(state_to_idx("New Hampshire"), 28);
    assert_eq!(state_to_idx("Texas"), 42);
}

#[test]
fn config_error_descriptions() {
    assert_eq!(ConfigError::ZeroStride.describe(), "stride must be positive");
    assert_eq!(
        ConfigError::ShapeMismatch.describe(),
        "layer input shape does not match previous output"
    );
}
