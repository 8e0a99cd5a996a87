# mainet

A peer-to-peer chat over libp2p: names are claimed in a Kademlia DHT,
messages travel on gossipsub topics, and peers on the local network are found
with mDNS.

- `src/` is the verified library: how a typed line is read (`fields`,
  `command`), what the chat asks of the network for it and how a claimed name
  is settled (`chat`), the start-up address prompt and its notices
  (`address`), numbered listings (`listing`), and the
  properties that span these (`laws`).
- `app/` is the program around it: the swarm, the terminal and the event loop.
- `tests/` runs the library on concrete lines.

Commands: `set_name: <name>`, `send: <message>`, `sendg: <group> <message>`,
`sub: <group>`, `unsub: <group>`, `ls ps`, `ls ts`, `help`, `clear`.
