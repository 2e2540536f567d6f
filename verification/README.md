# poly_5min_bot

A trading bot for Polymarket's five-minute markets, with its decisions verified in Verus.

- `src/` is the library. It decides; it does no I/O. Clock readings, order books, positions and the
  exchange's answers come in as values, and what to do goes out as values.
  - `decimal`, `text`, `time`, `types`: numbers, texts, clocks and identifiers. Contracts speak of decimals as
    whole numbers of atoms (`10^-28`).
  - `strategy`: the arbitrage strategy, the market maker and the apex market maker, with what holds of them in
    `mm_laws` and `apex_laws`; `action_executor` turns their actions into orders.
  - `trading`: pairs of orders.
  - `risk`: positions, exposure, and the watch over single positions.
  - `merge`, `wind_down`, `engine`: what happens in the course of a window.
  - `reports`: the lines on books, positions, orders and fills.
  - `config`, `launcher`: settings, wallets and the dialogue at the start.
  - `trial`, `license_tool`: licenses.
  - `utils::trade_journal`: one line of JSON for each event.
- `app/` is the program around it: environment, files, questions on the terminal, and the exchange's client.
- `tests/` runs the library with the crates it is linked to.

Functions return `None` where a step of a computation leaves the range of a decimal.
