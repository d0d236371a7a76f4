# terrain_editor

A terrain texture editor. Its rules are a library verified with Verus; a
bevy application drives it.

- `src/` — the verified library:
  - `cmds`: the asynchronous loading tasks, their dependencies, the command
    manager that starts a task once all its preconditions finished, and the
    progress each task reports.
  - `progresstracking`: progress of a group of tracked tasks.
  - `clipmap`, `terrain_clipmap`: clipmap data (cut out, written, cached
    levels) and the level rectangles that follow the camera.
  - `loader`: decoding PNG images (with the png crate) and accepting them only
    in the expected format and size.
  - `heightmap`: heightmap data from decoded images, row slices for the normal
    computation, tile height ranges.
  - `toolbox`, `terrain_painting`, `terrain_render`, `terrain_material`: the
    texturing brushes, the painting commands a click produces, and the render
    settings the tools switch.
  - `environment`: time of day (with its "HH:mm" text form) and the day/night
    cycle settings.
  - `config`, `gui_state`, `text`: constants, texture paths, UI state and
    decimal text.
- `tests/` — tests of the library.
- `app/` — the bevy application: reading files, spawning and polling tasks,
  egui, the brush pointer and everything computed in floats (material
  parameter presets, sun and fog curves).
