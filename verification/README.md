# meteo_link

Firmware core of a two-station weather link built on ESP32 boards.

* The **sensor station** samples a DHT11 (temperature, humidity), a DPS310
  (pressure), an ADC channel (light level, wind vane) and two pulse inputs
  (rain gauge, anemometer). It keeps the latest weather record, advertises it
  over BLE and answers requests from the hub over UART.
* The **hub** connects to the sensor station over BLE, reads a snapshot of
  the record whenever the station notifies an update, and relays records
  between the sensor station and a host computer over UART.

`src/` is the verified library:

* `shared::data` – the weather record;
* `shared::uart` – UART messages, their framing and the frame assembler;
* `shared::adv` – BLE advertising data built and read back through
  `trouble_host`;
* `shared` – the 16-byte command tables' common pieces;
* `hub::ble` – decoding characteristic values into a snapshot and the
  decisions of the hub's connection loop;
* `hub::station`, `sensor::station` – the decisions of each main loop;
* `hub::resources`, `sensor::resources` – command executors;
* `sensor::sensors::{dht11, dps310, adc}` – decoding of instrument data.

`app/` holds the firmware around it: peripherals, BLE stack, async tasks,
JSON encoding, and the floating-point computations.
