# fw_ec

Verified core of a set of tools for the embedded controller (EC) of
Framework laptops: a USB-PD port controller, a charge monitor with a D-Bus
service and a query for a desktop widget, and a fan controller.

`src/` is the library, verified with Verus. Talking to the EC goes through
transports the caller hands in: a host-command transport
(`Fn(&CrosEcCommandV2) -> Result<EcReply, EcError>`) and a memory-map
transport (`Fn(&CrosEcReadmemV2) -> Result<Vec<u8>, EcError>`). Every
function that talks to the EC is specified for every answer its transport
may give.

- `command`, `ec_cmd`, `status`, `error`, `wire`, `memmap`, `introspect`:
  framing host commands and checking replies, the command table, result
  codes, errors, byte layouts, memory-map reads, command introspection.
- `usbpd`, `pd`, `pdctl`, `report`: port state, role control, charge-port
  override, and what the port controller prints.
- `battery`, `charging`, `usb`, `dto`, `query`: the charge monitor's reads,
  reports, the values its D-Bus service hands out, and the widget's query.
- `spline`, `hermite`, `fan_curve`, `curve_laws`, `external_curves`, `fans`,
  `temp`, `plugins`: fan curves in exact rational arithmetic and what every
  curve table satisfies, profiles, temperatures, fan control, plugin state.
  Curve tables are computed exactly and rounded half away from zero; where
  a spline value is exactly a half, a table computed in `f64` can be one
  lower (knots `(25, 10), (45, 95)`, entry 14: 69.5 gives 70 here, 69 in
  `f64`).
- `text`: decimal, hexadecimal and padded text.

`app/` is the unverified shell: the ioctls on `/dev/cros_ec`, the command
lines, the D-Bus service and proxy, the on-disk curve cache, and the C
interface for plugins.
