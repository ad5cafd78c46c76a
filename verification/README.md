# minnow_capture

The verified core of MinnowSnap, a desktop screen-capture tool.

`src/` is proved with Verus:

- `geometry`: integer rectangles, their intersection, polygon bounding boxes
  and the resize handles of a selection.
- `text`, `locale`: string helpers and the language-tag rules of the UI.
- `window_catalog`: which system windows are offered for capture, clipped to
  the screen and moved into overlay coordinates.
- `window_level`: window levels and the Win32 extended-style bits for
  click-through windows.
- `frame`, `stitch_search`, `stitcher`: RGBA frames, the integer parts of the
  shift search, and the scroll stitcher that grows one tall canvas from the
  frames of a scrolling viewport and keeps an incremental preview thumbnail.
- `long_capture`, `coordinator`: the decisions of the capture loop and the
  state that the long-capture windows share.

`app/` is the unverified shell around it: screen grabbing, the floating-point
frame analysis that answers the stitcher's queries, the capture thread and
the window plumbing.
