# mvg

A client for the public transport APIs of the Munich transport corporation
(MVG), with a small command line front end, written in Verus.

- `src/` is the verified library: recognising global station identifiers,
  forming the request URLs of every endpoint (station lookup by identifier
  or name, departures with limit, offset and transport-type filter, nearby
  stations, master data), the decisions taken on the answers, the
  favourite-station bookkeeping, the monitor's direction filter, the
  whole minutes until a departure, and the texts the front end shows.
- `app/` is the unverified shell: the HTTP calls (`reqwest`, `tokio`), JSON
  decoding (`serde`), the configuration file, the command line (`clap`),
  reading the clock, local time formatting and colours.
- `tests/` runs the library on concrete values.
