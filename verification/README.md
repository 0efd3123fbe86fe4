# nmrs_gui

The decision logic of a GTK front end for NetworkManager, verified with Verus.

- `src/` — the library: Wi-Fi band classification, the ranking and
  de-duplication of scanned networks, which wired and Bluetooth devices are
  listed and how, command-line preferences, theme choice, the refresh of the
  network list as a state machine (one step per answer from NetworkManager),
  the Wi-Fi switch flow and the debouncing of change notices. Every public
  function carries a contract; the laws the library keeps are public proof
  functions beside the code they are about.
- `tests/` — concrete scenarios run against the compiled library.
- `app/` — the GTK window, command-line parsing and the NetworkManager calls.
  It answers the library's requests and performs the effects it asks for.
