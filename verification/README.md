# chirpstack

The verified core of a LoRaWAN network server, written in Verus.

- `src/lorawan`: AES-128 keys, EUI-64 identifiers and device addresses, with
  their hexadecimal text forms (through the `hex` crate).
- `src/storage`: the Redis key layout, the field types kept in database
  columns (DevNonces, tags, measurements, UUIDs), and the rules that run
  before rows are written: validation of API keys, tenants, queue items and
  relay membership, the DevNonce check of a join, the choice of the next
  queue item, and what storing a passive-roaming session comes to.
- `src/stream`: which Redis streams a log entry goes to, and how stored
  entries are read back.
- `src/uplink`: channel lookup, the receive time of an uplink, and the
  decisions of the roaming and mesh flows.
- `src/utc`: UTC times and the calls into `chrono` that read and compare them.
- `app`: the Redis reads and writes around the library, and the log items
  built from stream entries (not verified).
- `tests`: tests of the library on concrete values.
