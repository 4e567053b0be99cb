# servo_robot

Host-side library for an STM32 power and servo management board that talks
over UART, written in Verus and verified.

- `src/protocol`: the frame format (header byte, type, little-endian length,
  payload, CRC-16/CCITT over type to payload end), the CRC in its bitwise
  and table forms, and every payload: IMU, power, temperatures, battery,
  configuration, board events, system information, board log messages.
- `src/driver`: what the driver decides: decoding a frame into an event and
  the state record, the read loop's answer to each read result and the
  reconnect limits, assembling a frame from a byte stream, the board model
  behind the simulated transports, board commands and their texts.
- `src/bridge`: the service requests of the ROS 2 bridge node.
- `app/`: threads, channels, serial ports, tokio tasks and the sensor
  simulators, which compute in floating point.
- `tests/`: examples of the behaviour, run against the compiled library.
