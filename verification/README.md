# p2p_vpn

A peer-to-peer VPN. Two peers connect to each other directly, prove their addresses to each other and
exchange the IP packets of their TUN devices over the connection.

- `src/` is the library: what the VPN decides and computes, with contracts that Verus proves. Sockets,
  devices, timers and tasks are not part of it. Where something takes time, the library says what to do
  next and is told how it went. So it is with signatures: the library is told whether one was verified.
- `tests/` are the tests of the library.
- `app/` is the program: it opens the TUN device, connects to the peer, encodes messages, signs and
  verifies addresses, and carries out what the library decides.

| Module | What it decides |
| --- | --- |
| `connection::connect` | when to open a connection, and how long to back off |
| `connection::actor` | which of several connections both peers keep |
| `connection::peer` | how a link starts and ends, and whose connections it accepts |
| `peer` | which routes lead to a peer, and which packets are too big for it |
| `peer::validate_addr` | which of the addresses that a peer advertises are accepted |
| `peer::conn_metrics` | which metrics of a connection are exported |
| `proto` | what control messages mean, and how long they may be |
| `tun`, `tun::packet` | what follows a read or a write, and how packets are answered with ICMP |
| `relay`, `route`, `net` | which peer an address belongs to, and the route to it |
| `buffer_pool`, `osal` | buffers, names and flags of interfaces, errors that pass by themselves |
| `error` | error codes, and the labels under which errors are counted |

The crates that the library calls are trusted to do what the contracts of a few small functions say of
them. Each of these is marked `external_body`, and its doc comment says what is claimed.
