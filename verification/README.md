# trading_strategy

Building blocks for technical-analysis trading strategies.

- `src/` is the verified library (Verus): the grading tables of candle
  patterns, the keyed indicator collection `TAs`, the parameter records of
  VWAP, MACD and Ichimoku with their text forms, the moving-average period
  rule, the VWAP window rule, the reference-window and candle-count rules of
  price-gap checks, the classification of market-structure changes, the
  order-book and market-structure vocabularies, the strategy model and the
  configuration errors.
- `app/` holds the indicator computations themselves. They work on
  floating-point prices read through the `Candle` trait of the
  `trading_chart` crate, and call into the library for every rule that does
  not depend on a price. It also holds serde-enabled copies of the library's
  enums.
- `tests/` exercises the library.
