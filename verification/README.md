# croh

The decisions of a desktop application that transfers files between trusted devices, written in
Verus. The library says what is shown, what a peer is answered, and what follows from an event;
each function carries a contract, and Verus proves it.

## Layout

- `src/` is the library. The modules fall into four groups:
  - peers: `peers`, `peerlist`, `actions`, `trust`, `network`
  - requests and transfers: `listener`, `transfer`, `croc`, `files`, `browse`
  - the rest of the window: `settings`, `chat`, `screen`, `window`
  - what all of them use: `text`, `textmap`, `time`, `dates`, `size`, `binary`, `paths`,
    `seqs`
- `tests/` runs the library on concrete values.
- `app/` is the program around it: the window, the event loop, the network, the stores on disk and
  the conversions between their types and those of the library.

## Conventions

A type of the library is generic over its texts. The executable one holds `String`; its view holds
`Seq<char>`, so that contracts are equations between views. Laws that span functions are public
proof functions at the end of a module.

What lies outside of the library and is called from it stands behind a few trusted functions: the
clock, the calendar and the time zone (chrono), the components of paths and the growth of strings
(std). Each says in its doc comment what is taken for granted.

Sizes and percentages are computed over integers. The module `binary` states what rounding to a
double does, so that the digits shown are those of double arithmetic.
