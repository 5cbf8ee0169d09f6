# bevy_granite

Granite is a CAD and tooling framework built on the Bevy engine. This crate
holds its decisions as verified functions over plain values:

- `network::visibility`: how a locus node's visibility reacts to detection.
- `network::avatar`: avatars, client ids, mouse locus detection and how a
  server replicates a locus a client sent it.
- `network::connections`: connection records and their defaults.
- `network::state`: the local network state machine.
- `network::lightyear`: the transport configuration each state installs.
- `workbench::territory`: the grid placement, extent and shading of a
  territory's borders.

`app/` wires these into Bevy plugins, systems and observers, and holds the
component types that need Bevy's and serde's derives, as well as everything
that works on floating-point values (colors, positions, rectangles).
