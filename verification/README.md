# mde-kdc-host

Host layer of a KDE Connect stack, verified with Verus: peer identities, the pairing
store, and the link to a peer on the LAN.

- `src/` is the verified library. It performs no I/O. Opening the store, writing the
  list of trusted peers, signing a challenge, reading a link and sending a packet are
  step machines: a step names a request, the caller performs it and hands the reply
  back.
- `src/store_laws.rs`, `src/open_laws.rs` and `src/lan_laws.rs` state what holds across
  calls: an identity key is generated once and kept, the list of trusted peers is
  replaced as a whole or not at all, every trusted peer is persisted, a store is the
  same store when it is opened again, an opening that fails spoils nothing, and every
  decoded packet is reported once, in order, before one final disconnect.
- `src/identity.rs` holds everything that is taken on trust: what the `rsa` crate does.
- `app/` runs the step machines against the file system and a tokio stream. The protocol
  layer is passed in through the traits of `app/protocol.rs`.
