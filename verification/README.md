# orbital_movement_gdextension

Two-body orbital simulation for games (planet-centred, Earth-normalised units), with a Godot 4
binding.

## Layout

- `src/` — the verified library (Verus). It holds the discrete rules of the simulation and
  proves them:
  - `orbits` — orbit families and their classification (circular / elliptical, UI fields,
    computed altitude, retrograde, plane reference);
  - `thrust_frame`, `thrust_flags` — local thrust directions and their bit-flag encoding;
  - `small_body`, `collision`, `body_registry` — body ids and states, and the registry that
    hands out ids and finds bodies by id;
  - `transfer_burn`, `transfer_viability` — guided-transfer bookkeeping and availability;
  - `surface_geometry` — sampling plan of subdivided surface polylines and triangle
    connectivity of the visibility corridor mesh;
  - `host_codes` — the integer codes of the Godot-facing API;
  - `error` — the library's error values.
- `app/` — the floating-point physics (vectors, gravity, integration, orbit construction,
  transfer guidance and viability, ground tracks, tessellation, the simulation world, the
  transfer scenario harness) and the Godot extension, built on the library.
- `tests/` — tests of the library.
