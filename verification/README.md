# socket_server

A TCP echo server on raw socket calls, with its decisions verified by Verus.

- `src/socket/`: the socket's error types (`errors`), IPv4 addresses and
  their network-order layout (`addr`), the result of each socket call and
  the option table (`utils`), and the setup of the listening socket as a
  state machine (`socket`).
- `src/client/`: the service of one connected client as a state machine
  (`session`), and the client table and buffers of the poll-driven server
  (`handler`).
- `src/server/`: the accept loops (`listener`, `serve`).
- `src/text.rs`: decimal and address text, and the server's answer.
- `app/`: the program, which makes the system calls the state machines ask
  for and hands their results back.
