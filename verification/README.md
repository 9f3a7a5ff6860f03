# clang

Bindings to libclang, the C interface of the clang compiler.

- `src/` is the verified library: the numbering of cursor kinds, type kinds
  and parse options; the categories that cursor kinds fall into; the records
  that libclang hands out (strings, cursors, types, source locations, file
  inclusions); and what is computed from them, such as the text that
  describes a source location.
- `app/` holds the calls into libclang and its helper library `rustclang`,
  and the resources (strings, translation units, indexes) that give back to
  libclang what it handed out.
