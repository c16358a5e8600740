# akp03

Device support for the Ajazz AKP03 / Mirabox N3 family of stream controllers.

- `src/` is the verified library:
  - `mappings.rs`: the supported kinds, their (vendor id, product id) pairs, names,
    protocol versions and image formats, and the table of device queries.
  - `watcher.rs`: device ids, candidate selection, the registry that keeps a device from
    being managed twice, the answers to hotplug events and rescans, and the supervision
    loop of the hotplug event stream with its restart backoff.
  - `laws.rs`: properties of the library as a whole, proved.
- `app/` runs the library: HID enumeration and the hotplug stream through `mirajazz`,
  tasks and timers through `tokio`, device deregistration through `openaction`.
- `tests/` exercises the library on concrete values.
