# OLE - Open Live Engine

A DJ engine whose logic apart from the signal processing (harmonic mixing,
the transport and its markers, buffers and the effect controls) is verified
with Verus.

- `src/` is the library `ole`, verified: Camelot-wheel harmony (key
  notation, compatibility, wheel distance, parsing and display), the deck
  transport with its click-free fades, cue points, loops and slip mode, the
  effect controls of a deck (which effect is on, preset levels with 0
  meaning off, where filter commands go), the stages each mastering preset
  switches on, the sampler's slot states, the beat-repeat cursor, the
  recording buffer, the limiter's sliding-window peak hold, FFT bit-reversal
  tables, the integer generators behind the noise sources, the bitcrusher's
  sample-and-hold clock, and the effect and preset settings with their
  labels.
- `app/` is a command-line front end: it reads a WAV track, analyses tempo,
  key and phrases, plays it through a deck, its effects and the limiter, and
  can record the result. The signal processing on floating-point samples
  lives there, and the mixer, most effects and the live audio engine are
  not part of it.
- `tests/` exercises the library.
