use neural_control::neural_core::{Core, CONTROLLER_SIZE, GAUSSIAN_APPROXIMATIONS, PREDICTOR_SIZE};
use neural_control::rnn::Rnn;

#[test]
fn new_network_is_square_and_zero() {
    let r = Rnn::new(4);
    assert_eq!(r.size(), 4);
    assert_eq!(r.state, vec![0u32; 4]);
    for i in 0..4 {
        assert_eq!(r.weight_row(i), &vec![0u32; 4]);
        assert_eq!(r.offset(i), 0);
    }
    assert_eq!(0.0f32.to_bits(), 0);
}

#[test]
fn empty_network() {
    let r = Rnn::new(0);
    assert_eq!(r.size(), 0);
    assert!(r.state.is_empty());
}

#[test]
fn setters_change_one_value() {
    let mut r = Rnn::new(3);
    r.set_weight(1, 2, 1.5f32.to_bits());
    r.set_offset(0, (-1.0f32).to_bits());
    assert_eq!(r.weight_row(1), &vec![0, 0, 1.5f32.to_bits()]);
    assert_eq!(r.weight_row(0), &vec![0u32; 3]);
    assert_eq!(r.weight_row(2), &vec![0u32; 3]);
    assert_eq!(f32::from_bits(r.offset(0)), -1.0);
    assert_eq!(r.offset(1), 0);
    assert_eq!(r.size(), 3);
}

#[test]
fn core_new_sizes() {
    let c = Core::new();
    assert_eq!(PREDICTOR_SIZE, 1000);
    assert_eq!(CONTROLLER_SIZE, 500);
    assert_eq!(GAUSSIAN_APPROXIMATIONS, 3);
    assert_eq!(c.predictor.brain.size(), 1000);
    assert_eq!(c.predictor.gaussion_approximations, 3);
    assert_eq!(c.controller.brain.size(), 500);
    assert_eq!(c.controller.brain.weight_row(499).len(), 500);
    assert_eq!(c.predictor.brain.weight_row(999).len(), 1000);
}
