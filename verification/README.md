# security

Bindings for Apple's Security.framework on macOS, in two parts.

- `src/` is a library verified with Verus. It holds everything the bindings
  decide: the mapping of `OSStatus` codes to errors, the option flag sets and
  the raw values of the framework's enumerations, the checks on each argument
  handed to the Swift bridge (C strings, sizes), the JSON documents sent to it
  (keychain options, policy properties, string and byte lists), and the
  decoding of its replies (objects, statuses, strings, data, signing metadata,
  CMS signer reports, PEM input). Operations that need a bridge call take that
  call as a closure, hand it the checked arguments and state, in their
  contracts, what they make of any reply.
- `app/` is the crate that links against the bridge: it declares the C entry
  points, owns the handles they return, reads their string and data objects,
  and calls the library for everything else.

`tests/` runs the library on concrete values, with closures in place of the
bridge.
