# market_pulse

A market-data server and an LED board, with their decision logic verified by Verus.

- `src/leds.rs`: rainbow frames for an addressable LED strip (hue per LED, HSV
  conversion, brightness limit and gamma correction through `smart-leds`), and the
  periodicity of the animation.
- `src/feed.rs`: the protocol of the simulated candlestick stream (build, encode,
  send, pause; what an encoding or delivery failure does) and candle timestamps.
- `src/tasks.rs`: the board's cooperative tasks as step functions.
- `app/`: the HTTP server (axum, tokio, yahoo_finance_api), the floating-point
  price simulation, and the loops that run the verified steps.
- `tests/`: tests on concrete values.
