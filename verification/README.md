# ashpd

A client library for the XDG desktop portals, written in Verus.

The library (`src/`) holds the data that goes to and comes from the portals
and the rules that decide how it is built, named, parsed and checked: handle
tokens and the object paths of requests and sessions, the answers of
requests, the errors of the portals, icons, menus, the options of every
portal request, the enumerations and flag sets that travel on the bus, and
the bookkeeping of a portal backend (request lifetimes, served sessions).
Each function carries a contract that Verus proves; the few calls into the
bus library, the URL parser and the random number generator stand behind
wrappers whose contracts say what those crates do.

`tests/` exercises the library on concrete values. `app/` holds what talks to
the session bus (connecting to a portal, calling it and waiting for the answer
of a request) and the values that hold floating point numbers.
