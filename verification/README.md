# wizard

The GameImage wizard: a desktop front end that walks through creating
packages with the `gameimage-cli` backend.

- `src/` is the library, verified with Verus: the project databases, the
  JSON requests sent to the backend, the decisions each frame of the
  wizard takes (what a button asks of the backend, when the wizard may go
  on, which frame follows), the navigation between frames, downloads and
  their checksums, and the helpers on text and paths these rely on.
- `app/` is the program around it: the fltk window and frames, the backend
  process and its message queue, file and network I/O, and the serde
  copies of the database types.
- `tests/` runs the library on concrete values.
