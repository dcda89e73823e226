# arzmq

A typed library around the 0MQ messaging runtime (libzmq), with its logic verified by
Verus.

- `src/` is the verified library. It decides what the runtime is asked to do and what its
  answers come to: the socket kinds and their options (as writes and reads of option
  values), endpoints and groups, monitor requests and the decoding of monitor events,
  security mechanisms (how they are set up, and how they are read back step by step),
  ZAP domains, context options and builders, message parts and multipart messages (how a
  message is sent part by part and put together again), poll events, and the mapping of
  the runtime's error numbers onto errors.
- `app/` is the runtime side: the C interface of libzmq, live contexts and sockets that
  make the calls the library asks for and hand the answers back to it, the send and
  receive traits, the async variants, and copies of library types with serde and
  thiserror derives.
- `tests/` exercises the library on concrete values.
