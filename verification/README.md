# libstrophe

An ergonomic Rust wrapper around [libstrophe](https://strophe.im/libstrophe/), an XMPP client
library written in C, with its decision logic verified by Verus.

- `src/` is the verified library: the handler tables a connection owns and the laws they keep
  (one handler per callback address, deletion by address, clearing by kind), how a connection
  attempt is checked, started and undone, what each C callback answers the C library
  (handler results, certificate failure and socket option codes, the password reply), the
  process-wide initialization and shutdown, error codes and messages, stream errors,
  connection flags, stanza attribute lists, the fields a TLS certificate shows in debug output
  and the decimal text used in messages.
- `app/` owns the C objects (context, connection, stanza, logger, TLS certificate, stream
  management state), declares the C interface and makes the calls; it hands the verified
  library plain values and acts on what it returns.
- `tests/` exercises the verified library on concrete values.
