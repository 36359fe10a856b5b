# statime-embassy-net

PTP ordinary-clock service logic for `statime` on timestamp-capable Ethernet
interfaces, verified with Verus.

- `src/` is the library. It decides what a single-port UDP/IPv4 ordinary clock does
  next: which packets reach the protocol, which timer is due, which packet a transmit
  timestamp belongs to, how the sockets and multicast groups are set up, and when the
  service wakes. Every function states what it computes, and Verus proves it.
- `app/` holds the sockets, the clock and the protocol port around those decisions.
- `tests/` runs the library on concrete values, with `statime` and `embassy-time`
  linked.

The functions whose names end in `_at` take a reading of the system clock; those
without the suffix read it themselves. A computation whose result would be past the
last instant of the clock gives a `ClockError`.

The service is slave-only by default, measures delays end to end, and needs two UDP
sockets for PTP ports 319 and 320. Packet timestamps come from the network driver and
have to belong to the time domain of the clock that the service steers.
