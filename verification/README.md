# hyperion_adco

The decision logic of the Hyperion IPDA strategy tool, proved with Verus.

- `src/` is the verified library: market phases and actions (`types`), the
  Hamiltonian phase state machine (`continuum`), the IPDA phase classifier
  (`phase`), the candle buffer and breakout rule of the execution engine
  (`engine`), the bar clock, pattern naming and tick replay of the data feed
  (`data`), Bitget request signing, request building, ticker-frame reading and
  the ticker feed's control loop (`brokers`), run control and broker choice
  (`sentinel`), the pipeline state and kill-zone hours (`state`) and the configuration constants (`config`).
  Prices, volumes and energies are floating point; they are measured
  against their thresholds outside the library and handed in as readings.
- `app/` is the program around it: the Python bindings, threads and async
  runtime, the Redis pipeline tasks, the HTTP and WebSocket traffic with
  the exchange, and the floating-point measurements.
- `tests/` runs the library on concrete values.
