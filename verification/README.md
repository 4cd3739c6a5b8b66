# rustcv_backend_msmf

The decision-making core of a Windows Media Foundation camera backend,
written in Verus and verified.

- `src/` is the verified library: the camera model (`camera`), the Media
  Foundation GUIDs it compares with (`guid`), the subtype/pixel-format
  mapping (`pixel_map`), device records, format scoring and negotiation and
  frame-size packing (`device`), the device-control decisions (`controls`),
  the polling stream (`stream`) and the callback-driven stream with its
  strided sample copy (`task`).
- `app/` makes the Media Foundation calls around the library: enumerating
  and opening devices, reading samples, the sample callback and the
  controls.
- `tests/` exercises the library on concrete values.
