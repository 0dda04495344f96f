# remotebridge

A screen sharing host: it captures the screen and saves one frame as an image,
records a fixed length of H.264 video, or streams to a viewer over WebRTC. A
fourth mode encodes a synthetic test video without touching the screen.

    remotebridge             one frame, to frame.png
    remotebridge capture     ten seconds of the screen, to capture.h264
    remotebridge webrtc      the screen, to a viewer
    remotebridge gradient    five seconds of a moving gradient, to out.h264

`src/` is the library, written and proved in Verus. It computes pixels and
frames (`pixels`, `video`), the settings and the protocol of the encoder
(`encoder`), the conversation with the signaling server (`signaling`), the
WebRTC handshake (`webrtc_host`), and the course of each mode (`capture`,
`recording`, `streaming`, `screenshot`, `report`). The proof functions whose
names begin with `law_` state what holds of these as a whole.

What touches the screen, the codec, the network or a file is decided in the
library and performed in `app/`: a library call returns an action, `app/`
performs it and hands back what came of it.

`tests/` runs the library on concrete values.
