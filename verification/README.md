# tetra_sds

The Short Data Service (SDS) of a TETRA base station, as a library whose behaviour is stated in
contracts and proved with Verus.

The service routes SDS and status messages between radios, groups, the network link and the control
links. It also supervises emergencies, runs remote commands sent as statuses, and answers weather
requests.

## Layout

- `src/` is the verified library.
  - `entity` holds the state of the service. Each operation is a transition on its mathematical
    value, `SdsBsView`.
  - `routing`, `delivery`, `emergency`, `commands`, `wx` and `tick` hold the operations; `channel`
    hands weather replies to the control channel.
  - `sds_tl`, `lip` and `text` read and build user data.
  - `pdu`, `sap`, `control`, `telemetry`, `config` and `time` hold the plain types.
  - `laws` states what holds of the service as a whole: deliveries, emergencies, framing, positions,
    remote control and weather.
- `tests/` runs the library on concrete values.
- `app/` connects the library to a running station: PDU codec, clock, host and weather look-ups.

## What is not proved

Three declarations are taken on trust: `String::push`, the type `crossbeam_channel::Sender`, and its
`send`, which hands a weather reply to the control channel.
