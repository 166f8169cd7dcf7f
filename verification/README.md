# OpenXR remoting client model

A verified model of the runtime interface used by a Holographic Remoting
client that shows a thermal camera on a HoloLens, and the decisions the
client takes while it runs.

- `src/codes.rs`: the interface's enumerations and their numeric codes.
- `src/loader.rs`: the structures of the loader/runtime negotiation.
- `src/types.rs`: application description, adapter id, usage flags, rectangles.
- `src/setup.rs`: system query, graphics requirements, views, swapchain creation.
- `src/session.rs`: events and what the client does about each.
- `src/frame.rs`: frame-loop structures and whether a frame is drawn.
- `src/enumerate.rs`: the two-call idiom by which the runtime returns arrays.
- `src/camera.rs`: decoding camera datagrams and stretching frames to full range.
- `app/`: the program: C layout of the interface, the calls into the runtime,
  the network and the GPU.
