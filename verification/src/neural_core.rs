//! The driver's two networks: a predictor of the robot's next state and a
//! controller that chooses actions from the state and that prediction.

use vstd::prelude::*;
use crate::rnn::{Rnn, zeros};

verus! {

/// Neurons in the predictor network.
pub const PREDICTOR_SIZE: usize = 1000;
/// Neurons in the controller network.
pub const CONTROLLER_SIZE: usize = 500;
/// Gaussian curves the predictor uses to describe each state value.
pub const GAUSSIAN_APPROXIMATIONS: usize = 3;

/// Chooses actions from the current state and the predicted one.
#[derive(Debug, Clone)]
pub struct Controller {
    pub brain: Rnn,
}

/// Predicts the robot's next state as a mixture of Gaussian curves per value.
#[derive(Debug, Clone)]
pub struct Predictor {
    pub brain: Rnn,
    pub gaussion_approximations: usize,
}

/// Both networks of the driver.
#[derive(Debug, Clone)]
pub struct Core {
    pub controller: Controller,
    pub predictor: Predictor,
}

impl Core {
    /// A predictor of 1000 neurons that describes each value with three
    /// curves, and a controller of 500 neurons; all parameters and states are
    /// zero.
    pub fn new() -> (res: Self)
        ensures
            res.predictor.brain.wf(),
            res.predictor.brain.spec_size() == PREDICTOR_SIZE,
            res.predictor.brain.state_view() == zeros(PREDICTOR_SIZE as nat),
            res.predictor.brain.offsets_view() == zeros(PREDICTOR_SIZE as nat),
            forall|i: int| 0 <= i < PREDICTOR_SIZE ==> #[trigger] res.predictor.brain.weights_view()[i] == zeros(PREDICTOR_SIZE as nat),
            res.predictor.gaussion_approximations == GAUSSIAN_APPROXIMATIONS,
            res.controller.brain.wf(),
            res.controller.brain.spec_size() == CONTROLLER_SIZE,
            res.controller.brain.state_view() == zeros(CONTROLLER_SIZE as nat),
            res.controller.brain.offsets_view() == zeros(CONTROLLER_SIZE as nat),
            forall|i: int| 0 <= i < CONTROLLER_SIZE ==> #[trigger] res.controller.brain.weights_view()[i] == zeros(CONTROLLER_SIZE as nat),
    {
        Core {
            predictor: Predictor { brain: Rnn::new(PREDICTOR_SIZE), gaussion_approximations: GAUSSIAN_APPROXIMATIONS },
            controller: Controller { brain: Rnn::new(CONTROLLER_SIZE) },
        }
    }
}

} // verus!
