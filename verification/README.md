# pronk

Pronk shows a desktop on wireless displays. It finds devices through backends,
gives each display a kernel connector of its own, captures what the compositor
draws there and hands it to the device. This crate holds the daemon's decisions:
what is known of each device, which operation may run, what every failure leaves
to be undone and what callers on the bus are told.

## Layout

- `src/` is the library. Every function states what it does in `requires` and
  `ensures` clauses that Verus proves. The parts that wait for the outside are
  written as state machines: they name the next action, take in its answer and
  say what follows.
  - `manager/` follows the backends: inventory, publication, setups, display
    lifetimes, and the end of them all.
  - `display/` sets a display up and runs it; `cast_display_slot/` owns it.
  - `castkms_actor/` drives the capture of a connector, from start to stop.
  - `device_session.rs`, `device_recovery/` and `media_driver.rs` keep the
    device's session and its media in step.
  - `kernel_display.rs`, `drm_capture_pipeline/` and `gpu_output.rs` stand
    between the kernel and the encoder.
  - `dbus/` says what is published, and how requests are answered.
  - `service/` takes the daemon itself from its start to its end.
- `app/` is the daemon around it: the process, the bus, timers and tasks.
- `tests/` runs the library on concrete values.

## Laws

Properties that span several functions are public proof functions next to the
types they are about, such as `manager::inventory::laws`.

## Trust

Four items are believed without proof: `String::push`, the debug form of a text,
the error numbers of the C library, and the object-path check of `zvariant`. Their doc comments say what
is believed of each.
