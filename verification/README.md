# saddle_vat

Vertex animation texture (VAT) playback metadata and runtime decisions,
verified with Verus.

- `src/` is the verified library:
  - `float_bits`: binary32 values held by their bit patterns, with the
    IEEE 754 comparisons, negation and `max` the rules need.
  - `asset`: the metadata model of a bake (`VatAnimationData`, clips,
    texture descriptors) and clip lookup and selection.
  - `metadata`: normalizing decoded canonical and OpenVAT-compatible
    documents into the model, with the exact error each malformed field gives.
  - `validation`: the metadata rules, the proxy-mesh rules, bounds and
    coordinate-system helpers, the frustum-culling policy.
  - `components`: the playback state (`VatPlayback`, `VatCrossfade`,
    `VatPlaybackFollower`) and its builders.
  - `playback`: per-frame decisions: which clip plays, fallbacks,
    crossfade bookkeeping, follower mirroring, binding markers.
  - `material`: the integer layout handed to the vertex shader.
  - `laws`: properties that tie several operations together.
- `tests/` runs the library on concrete values.
- `app/` is the bevy plugin around the library: the engine types with
  their derives, JSON decoding and the asset loader, the material, the ECS
  systems and the floating-point time arithmetic of playback. Its vertex
  shaders are loaded from the asset paths `shaders/vat.wgsl` and
  `shaders/vat_prepass.wgsl`.
