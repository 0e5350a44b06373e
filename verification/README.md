# NeRF Studio

A service that builds 3D scenes from photo collections with neural radiance
fields. This crate is its verified core, written in Verus.

- `src/` — the verified library:
  - `api/` — rules of the HTTP endpoints: naming of stored uploads and
    thumbnails, the camera data an upload field's name carries, decoding and
    measuring an upload and its thumbnail, restoring a scene's model and the
    render preconditions, render file names, the health report, and the
    status and text answered for each failure.
  - `models/` — scene status, scene create/update requests, export format,
    request defaults, image URLs and reported camera poses.
  - `nerf/` — training bookkeeping of a model (`train_model`, its progress
    reports, readiness) and the layout of the positional encoding.
  - `utils/imaging.rs` — aspect-preserving resize and EXIF orientation.
  - `ids.rs`, `text.rs` — identifier text, parsing and generation; splitting
    and joining text.
- `app/` — the server around it: command line, routing, database, file
  storage, and the floating-point parts (camera geometry, sampling, volume
  integration, losses, image statistics, feature values).
- `tests/` — tests of the library.
