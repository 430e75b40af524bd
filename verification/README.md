# PLDM service

The decisions of three PLDM-over-MCTP services, verified with Verus:

- the **responder** frames an incoming message, forwards it to the firmware
  device or to a handler, and sends the response back;
- the **firmware device** serves commands and, in update mode, asks the Update
  Agent for firmware;
- the **requester** forwards the firmware device's requests over MCTP and returns
  the responses.

Each service is a function from an event to the next action. It calls the IPC
channels itself (they are traits, for platforms to implement) and returns
whenever the MCTP transport or the PLDM command interface has something to do.
It reaches a channel only through a recorder, which keeps a ghost list of every
call, so the contract of each step says exactly which calls it makes. One thing
about this is not proved but to be read off the module `calls`: each of its six
functions that call a channel makes one call and adds one entry to the list, and
a service has no other way to a channel or a list.

- `src/` the verified library: `frame` (message framing), `calls` (the
  recorders), `responder`, `firmware_device` (the channel traits and the device),
  `requester`, `error`. Functions named `law_...` state and prove what holds of
  the library as a whole; those on whole runs of a service stand in the modules
  named `..._laws`.
- `tests/` host tests over in-memory channels.
- `app/` the loops that carry out the actions on a platform.
