# Beam

The decisions of a remote desktop, verified with Verus: which display a session gets, which
processes it is made of and in which order they start and stop, what a remote user's events lead
to, when frames are captured, and what is kept across restarts.

- `src/` is the library. Its functions have contracts that Verus proves. The exceptions are a few
  wrappers around functions of `std`, `uuid` and `serde_json`: their contracts are taken on trust,
  and their doc comments say what is claimed.
- `app/` is the program around it: processes, files, sockets, threads and the user's keyring.
- `tests/` runs the library on concrete values.

The modules of the library:

| Sessions | `session`, `pool`, `ids`, `launch` |
| --- | --- |
| Settings | `config`, `cli`, `backend`, `credentials` |
| X displays | `display`, `modeline`, `xserver`, `setup`, `desktop`, `seed`, `discovery` |
| Wayland displays | `compositor`, `portal`, `media`, `keyboard` |
| Picture, sound and input | `capture`, `recorder`, `pacing`, `input`, `clipboard` |
| Shared | `text`, `command`, `waiting` |
