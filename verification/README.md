# crab_dashboard

The decision logic of the CrabCache admin dashboard, written in Verus and proved
against its contracts.

- `src/` is the verified library: admin API URLs and response decisions (`api`),
  percent-encoding (`url`), session-key rules (`auth`), Beijing-time formatting
  (`datetime`), chart axis and segment logic (`chart`), anomaly cooldowns
  (`anomaly`), the peak-hours matrix (`heatmap`), session drill-down aggregation
  (`session`), routing and OAuth flow decisions (`routing`, `oauth`), themes,
  locale strings and small presentation rules (`theme`, `locale`, `ui`,
  `particles`, `clipboard`, `gpu`), and `laws`, the properties that span calls.
- `tests/` runs the library on concrete values.
- `app/` is the browser glue: storage, HTTP, clipboard, timers, and the
  floating-point chart and metric helpers.
