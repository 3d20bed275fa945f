# MemHover

A memory monitor for Windows that sits in the system tray. When the cursor hovers over an
application icon on the taskbar, an overlay shows the memory of all processes of that
application: the sums of their working sets and of their private commits.

- `src/` is the library, verified with Verus: which window an icon stands for, which processes
  count, what the overlay says, where it appears and how it is painted, and what each window
  message leads to. Each module states its model first, then its functions, then its laws.
- `app/` is the program around it. `driver.rs` runs the library's decisions against a desktop;
  `platform.rs` is that desktop on Windows, with the windows, the tray icon and the message
  loop.
- `tests/` runs the library on concrete values.

Three things of the standard library are taken on trust, with their contracts:
`String::push`, `char::from_u32` and `str::to_lowercase`. What `str::to_lowercase` gives is a
name in the contracts (`lowercase_of`), except for ASCII texts, for which it is stated.
