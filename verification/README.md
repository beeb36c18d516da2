# pendulum_rs (verified core)

A Pendubot / n-link pendulum controller suite: RK4 dynamics, an LQR balance
controller, energy-shaping and model-predictive swing-up, an online dithered
estimator, and RuVector-backed memories of arm configurations and policies.

- `src/` — the verified library (Verus): the splitmix64 generators and their
  counter / no-repeat laws, the estimator's sliding sample window, the
  torque-reversal tally, the recognition commit rule and consensus tracker, the
  planner's re-plan clock and plan shift, the evolutionary-search schedule, the
  harness's selection and counting helpers, the inertia-coupling layout, and the
  browser exhibit's shape bookkeeping.
- `app/` — the floating-point side (physics, control, estimation, learning,
  planning, RuVector storage), which calls into the library for all of the
  above.
- `tests/` — executable tests of the library on concrete values.
