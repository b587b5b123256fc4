# vm_core

The data core of a flight-telemetry overlay: it reads the game's telemetry
texts (`/state`, `/indicators` both as text and as JSON, `/map_obj.json`, `/map_info.json`, the HUD
message feed), the layout configuration written as S-expressions, and builds
the models the overlay panels display.

* `src/` is the library, verified with Verus. The contracts state what the
  functions return, in terms of spec functions over sequences and integers;
  where a value comes from code the verifier cannot see, the contract ties
  the result to that call instead: a named result for the standard
  library's Unicode casing and the JSON parser, and `call_ensures` for the
  user's controller, focus detector and configuration provider (the overlay
  context, the panel defaults and the field manager are generic over their
  provider, so their contracts name the call and the key each value comes
  from).
  The laws that relate several operations are public proof functions whose
  names start with `law_`.
* `tests/` runs the library on concrete inputs.
* `app/` is the runtime around it: the floating-point values of the readings,
  the flight-model data source, the value suppliers of the panel fields, and
  the network side of the telemetry client (plain sockets and `ureq`).

Decimal readings are handed from `src/` to `app/` as the text they came in
(`vm_core::state::Reading`); `app/` turns them into numbers.
