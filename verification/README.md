# concentratord

The verified core of a LoRa concentrator daemon, written in Verus.

`src/` is the library; every function in it is verified against its contract:

- `jitqueue`: the just-in-time downlink queue on a linear time line that never
  rolls over, and `counter_queue`, the queue that schedules on the rolling `u32`
  concentrator counter directly;
- `regulation`: duty-cycle tracking over a sliding window (`dutycycle`), the
  bands of a regulatory standard (`standard`), duty-cycle tracking per band
  (`tracker`), and the items of the regulation engine (`engine`);
- `gnss`: the GNSS device setting, the time since the GPS epoch that a u-blox
  receiver reports, and the conversion between that time and the concentrator
  counter; `gpsd`: the choice of receiver behind gpsd;
- `stats`: the packet counters (per frequency, status and modulation); `reset`:
  the concentrator reset sequence;
- `sx1301`, `sx1302`, `loragw_2g4`: the types of the concentrator HALs and how
  they map to the values and structures of the C libraries;
- `time`, `text`, `c_string`, `helpers`, `status`, `error`, `outside`: the
  integer model of durations, number formatting, C paths, and the shared types.

`app/` holds what cannot be verified: sockets, serial and TCP I/O, GPIO, logging,
the serde forms of the library's types and their conversions to the gateway
protocol's messages, and the floating-point GNSS state.

What is left out, and why:

- the calls into the C concentrator HALs (`board_setconf`, `start`, `receive`,
  `send`, `status`, the GPS `enable`/`get`/`sync`/`cnt2time` family, the SPI and
  COM path setters): they are foreign calls into a C library through generated
  bindings, and the packets they return (`RxPacket`) and several of their
  configurations (RF chains, RSSI temperature compensation, the GPS time
  reference) carry floating-point values. The library keeps the conversions of
  every value and structure that goes to or comes from them;
- the load-based regulation engine and its second band table for EN 300 220:
  its load arithmetic is floating-point, and it no longer fits the band and
  standard types that the duty-cycle tracking uses;
- the floating-point GNSS state (crystal error, location) and the calendar
  time of the GNSS receiver, which `app/` keeps.

`tests/` runs the library on concrete values.
