# pcb_render

Turns a KiCad board into a PCB3D archive: a ZIP file holding the board's VRML
model, the component models, SVG drawings of the layers, and TOML descriptions
of the outline, stackup, boards and pads.

The library under `src/` is verified with Verus. It decides everything that can
be decided without touching the outside world:

- `decimal`: numbers rounded to six places and their exact text;
- `board`: the outline, stackup, pad and stacked-board records and their TOML;
- `names`: file-name extensions;
- `archive`: the sequence of archive entries, and `archive_laws`: that entry
  names never repeat and that nothing reported by the exporter is left out;
- `export`: the exporter's interpreter and module path, and the steps taken
  after each thing the exporter reports;
- `session`: the bookkeeping of a render run over many source files, and
  where each archive goes;
- `script`: the exporter script run by KiCad's Python;
- `pcb3d`: the names used inside an archive.

`app/` holds what runs around it: reading the exporter's JSON, running Python,
listing directories, writing the ZIP file, the `render` command, the
command-line front (`cli::run`) and the self-update check.
