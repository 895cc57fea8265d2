# persona-message

The message component of a persona engine, verified with Verus.

- `src/` is the verified library: the `message` command's records and
  argument handling (`command`), the length-prefixed frame codec and its
  exchange matching (`router`), provenance stamping in the daemon
  (`daemon`), the Signal vocabulary the component speaks (`signal`), actor
  resolution from a process ancestry (`resolver`), the output validator
  (`output_validator`), prompt reading (`prompt`), and the text routines
  they share (`text`).
- `app/` is the program around it: NOTA text in and out, sockets, the
  Kameo actor that runs the daemon's root, peer credentials, and the
  process environment.
- `tests/` exercises the library on concrete values.
