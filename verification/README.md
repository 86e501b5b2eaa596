# quantum_soft

A solver for the time-dependent Schrödinger equation by the split-operator
Fourier-transform (SOFT) method, rendering the evolving probability density to
video through FFmpeg.

* `src/` is the verified library: the placement of signed wave numbers on FFT
  grids (`frequency`) and the run driver that decides after which time steps a
  frame is rendered (`schedule`), with their laws, and the exact argument list
  the video encoder is started with (`encoder`).
* `app/` is the program around it: command-line handling, the complex
  floating-point propagators and FFTs (`rustfft`, `ndrustfft`), plotting
  (`plotters`), the FFmpeg pipe, and a standalone shooting-method energy search.
* `tests/` exercises the library on concrete grids and runs.

Run with `--dim 1 --iterations 2000 --output quantum_wave.mp4`; with
`--energy-search` the program instead searches for the ground-state energy of
the harmonic oscillator by the shooting method.
