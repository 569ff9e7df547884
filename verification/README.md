# neolink

The logic of a bridge between Reolink cameras and the protocols that other
software speaks: ONVIF, MQTT and MPEG-TS.

- `src/` is the library. Every function in it has a contract, and Verus proves
  the contracts. Public proof functions whose names start with `law_` state what
  holds of the library as a whole.
- `app/` is the program around it: sockets, files, tasks, the camera connection
  and arithmetic on fractions.
- `tests/` runs the library on given values.

| module | what it holds |
| --- | --- |
| `config`, `camera` | the configuration, its defaults and its validation |
| `audio` | A-law and ADPCM |
| `mpegts` | the transport stream multiplexer |
| `mqtt` | topics, commands, replies and the broker connection |
| `onvif` | SOAP, discovery, sign-in, events, capabilities and the services |
| `common` | back-off and the camera connection |
| `ai`, `chime`, `configcmd`, `factory_reset`, `io` | the commands |
| `text`, `xml`, `time`, `codec`, `bytes_util` | what the rest is built on |

Calls into other crates stand behind small functions marked
`#[verifier::external_body]` in `text`, `xml`, `time`, `codec` and
`onvif::state`. Each says what it takes for granted.
