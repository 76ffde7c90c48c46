# p2p_songs

A peer-to-peer song catalogue. Each peer keeps its songs in a local JSON file, asks all
peers for songs over a floodsub topic, and receives the matching songs back over a
request/response protocol.

- `src/` is the verified library (Verus): the console commands (`command`), the decisions
  of the event loop (`event`), song selection and song creation (`catalog`), the protocol
  name and the acknowledgement codec (`protocol`), fresh song ids (`song_id`), the message
  types (`song`) and the text helpers they rest on (`text`).
- `app/` is the program around it: the libp2p swarm, the console, the local song file and
  the JSON copies of the message types.
- `tests/` runs the library on concrete values.
