# probe_core

Rules of the HarvestHub field probe, written in Verus and proved, and the firmware around them.

`src/` is the library. Nothing in it touches hardware: each activity of the probe is a state machine
that names the next action and takes what came of it.

| module | what it holds |
|---|---|
| `calibration`, `bme280` | compensation, start-up, forced samples and measurement phase of the air sensor |
| `zts3000` | Modbus frames, checksum and measurement phase of the soil sensor |
| `motor_command` | commands written by the hub, duplicates, the command that waits |
| `motor_uart` | frames, acknowledgements, dispatch, watchdog and idling |
| `hci`, `gatt`, `snapshot` | radio events, registration of the service, published values |
| `advertising`, `setup`, `lifecycle` | the two sessions, the set-up mark, and the life of the probe |
| `measure`, `host_codec`, `fw_codec` | measurements as bytes, by `bincode` and by `postcard` |
| `clock` | points in time, by `embassy_time` |
| `config`, `identity`, `text`, `bytes`, `arith`, `i2c`, `uart` | constants and what the others share |

Public proof functions named `law_...` state what holds of several functions together.

`app/` is the program: the firmware for the STM32WB55 (`firmware.rs` is its entry, `wpan.rs` drives
its radio) and, on a computer, a simulation of the telemetry. `harvesthub_esp32.rs` and `build_steps.rs` are
programs of their own.
