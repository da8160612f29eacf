# wavy

Real-time audio recording and playback on ALSA, with the decisions verified
by Verus.

- `src/` is the verified library: the enumerations and error codes of
  libasound, the rules that choose which devices are listed or discovered
  and under which names, channel-count masks, the configuration steps and
  checks of a device, the playback and capture buffers of speakers and
  microphones, what to do after a failed transfer, and the layouts of
  frames.  Each public function states its result in its contract; the
  `lemma_*` proof functions state the properties that span calls.
- `app/` is the system side: it loads libasound at run time, makes the
  calls the library decides on, waits on device descriptors, and hands
  newly plugged-in devices to listeners.
- `tests/` runs the library on concrete devices, buffers and codes.
