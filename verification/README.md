# bevy_tutorial

The logic of the Bevy RPG tutorial that does not depend on floating point or
on the engine, verified with Verus:

- `src/tutorial_capture.rs`: the capture switch (which values of the
  `BEVY_TUTORIAL_CAPTURE` variable turn screenshot capture on) and the
  screenshot state machine that counts frames and requests exactly one
  screenshot at the target frame, with its laws.

`app/` is the Bevy program around it: the plugins, the body movement
(floating point), the camera, and the system that reads the environment,
runs the state machine each frame and takes the screenshot.
