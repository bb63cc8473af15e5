# mira_sharer

The host side of a screen-sharing session, as a library verified with Verus,
and a small program around it.

`src/` is the verified library:

- `auth`: passcode authentication of viewers and generation of passcodes
  from an alphabet without easily confused characters.
- `yuv`: conversion of BGR0 frames to planar BT.601 YUV.
- `encoder`: copying strided NV12 planes into an encoder's buffers, and the
  pool of frames kept for reuse.
- `inputs`: mapping browser `KeyboardEvent.code` values to keys.
- `config`: the session settings and their defaults.
- `capture`: invite links, display labels, display reselection, frame
  checks and the recorder's start/stop decisions.
- `content`: the list of windows offered for capture, sorted by application
  name, and the refresh of the shareable content.
- `monitor`: user-friendly monitor names from the display configuration.
- `audio`: interleaving of planar audio samples.
- `gui`: theme palettes, widget styles, icons and the sharing page's
  decisions.
- `text`: string helpers shared by the modules above.

`app/` is the program: command-line arguments, the configuration file, and
remote-control messages applied to the mouse and keyboard. `tests/` holds the
tests of the library.
