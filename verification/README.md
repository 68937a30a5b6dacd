# aa-proxy

A proxy that makes a wired Android Auto head unit wireless. The phone learns over Bluetooth how
to reach the access point of the proxy, connects to it, and the proxy carries the Android Auto
traffic between the phone and the USB accessory port of the car.

The library under `src/` holds what the proxy computes and decides, written in Verus: every
function states what it returns, and Verus proves it. Sockets, Bluetooth, timers and files are
left to the program around it, under `app/`.

Most of the proxy is a conversation with the outside, so most of the library is made of state
machines: a function takes what happened and returns what to do next. The program performs that
and reports back.

| module | what it decides |
| --- | --- |
| `bluetooth`, `ble` | how Bluetooth is set up and announced |
| `connect`, `profile` | which phone is tried when, and which one is let in |
| `frame`, `handshake`, `launch` | what the phone is told, in which order, and what keeps the connection |
| `session`, `direct` | one session from waiting for a phone to cleaning up |
| `monitor` | statistics, stalls, and what the user asks for |
| `bridge`, `peer` | connections back to the companion application, and who is at the other end |
| `config`, `settings` | the defaults of the configuration, and how it is written into its file |
| `address`, `hex`, `text` | Bluetooth addresses, bytes in hexadecimal, and text |
| `outside` | what is taken from other crates without proof |

Functions named `law_..` prove what holds across calls, such as that a packet reads back, that a
device that does not answer is left alone for a minute, or that every session that is followed by
another announces its end exactly once.

Of the dependencies, `dbus` is named only for its `vendored` feature, which lets `bluer` be built
where the D-Bus library is not installed.
