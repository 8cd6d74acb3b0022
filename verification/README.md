# sqlite-wasm-vfs

A SQLite virtual file system over the browser's Origin Private File System,
entered through JavaScript Promise Integration, with its decisions proved in
Verus.

- `src/` is the library. It decides, and does nothing else: names (`naming`),
  numbers and failures at the border to JavaScript (`script`), one open file
  (`file`, with temporary files in `memory`), the table of open files (`store`),
  installation and removal (`install`), and the order of entry to SQLite
  (`guard`). Where a call into JavaScript or SQLite is due, a function says which
  one, and another takes what came back. Each function states what it
  answers. Two answers rest on the machine and are stated for each way they can
  turn out: whether the mutex of SQLite is free, and whether memory can be had
  for a temporary file that grows. The proof functions named `law_...` state what holds of several of
  them together.
- `app/` makes those calls and implements the traits of `rsqlite_vfs`. Its
  counterpart in JavaScript, `opfs_jspi.js`, is served by the page beside the
  module that wasm-bindgen generates.
- `tests/` runs the library on concrete values.

What is taken on trust stands beside a doc comment that names the outside
function: memory files of `rsqlite_vfs`, `Mutex::try_lock` of `async_lock`, and
`String::push`.
