# rivals_robot

Controller of a competition robot (mecanum drivetrain, intake, a Python
computer-vision pipeline, AprilTag detection).

- `src/` is the verified library (Verus): the decisions of the control
  program (`supervisor`), of the link to the Python vision pipeline
  (`vision_link`), exit-key recognition (`keys`), AprilTag detection on
  grayscale buffers through the `apriltag` crate (`detector`), and a
  hook-based state machine (`sm`). Each decision function is stated as a
  transition over phases, and the properties that span several decisions
  are proof functions beside them.
- `app/` is the program around it: GPIO motors (`rppal`, floating-point
  powers), the TCP controller input (`rmp-serde`), the Python pipeline
  (`pyo3`), the terminal (`crossterm`), and the loop that carries out the
  library's actions.
- `tests/` exercises the library on concrete values.
