# lib — verified core of a financial charting toolkit

`src/` is the verified library (Verus). It holds the parts of the charting
toolkit that are discrete logic:

- `cache`: a bounded FIFO cache with hit/miss counters, modelled as a map of
  entries plus an insertion order; laws for read-after-write, FIFO eviction,
  bounded size and undoing a fresh insert.
- `cache_keys`: the keys of the axis, geometry, grid, indicator and text caches.
- `keyboard`: a shortcut map, generic over the command type, where the first
  registered match wins, and the ready-made profiles (default, trading,
  minimal), each proved to hold exactly its table of keys and commands.
- `engine`: the interaction engine's state machine (mode, pressed button,
  active tool, held modifiers) and the action each event asks for.
- `crosshair`: crosshair mode, visibility and sync groups.
- `input`: mouse buttons, modifier state and flags, key codes, mode enums.
- `drawing_set`: the drawings of a chart pane, found by kind and id; laws
  for read-after-add and for removing what was just added.
- `annotation_sets`: the markers and price lines of a pane, found by id,
  timestamp range and price scale.
- `gesture`: which touches are down and which gesture their count allows.
- `seq_search`: first-match and selection over sequences, shared by the
  collections above and the shortcut map.
- `point_figure`: Point & Figure columns and the column builder, whose
  columns start with a rise and alternate.
- `indicators`, `annotations`, `render`: indicator descriptors and their
  default pane and scale, annotation ids and hit results, and time labels.

`app/` is the floating-point and platform layer around it (input events with
pointer coordinates, zoom, pan, gestures, crosshair positions, the domain
caches' entries, the zoom factors and price steps of the shortcut profiles,
the technical indicators, the price comparisons of Point & Figure building,
the drawing tools with their bounds and hit tests, markers and price lines). `tests/` exercises
the library.
