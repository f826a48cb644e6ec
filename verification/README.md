# neural_control

A driver that steers a simulated quadruped with two recurrent networks, and
the physics simulation it talks to.

- `src/` is the verified library (Verus): the UDP datagram format with its
  round-trip proofs, the driver's decisions and transition memory, the shape
  of the recurrent networks, the cutting of predictor output into Gaussian
  mixtures, and the codes of the physics descriptions. Floats are carried as
  their IEEE-754 bit patterns.
- `app/` is ordinary Rust around it: the socket, the floating-point network
  arithmetic and probability curves, and the bevy/rapier simulation.
- `tests/` exercises the library on concrete values.
