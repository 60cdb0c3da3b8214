# textbook_exchange

A verified marketplace for secondhand textbooks: students list books for sale
(at a token price) or for swap, buy or swap listed books, and a platform fee of
at most 10 percent on each sale is held until the administrator withdraws it.

- `src/types.rs`: books, activity records, errors, and the token transfers that
  an operation owes.
- `src/market.rs`: the marketplace (`TextbookExchange`), its abstract contents
  (`MarketState`), the specification of every operation over those contents,
  and the verified implementation.
- `src/laws.rs`: properties of the marketplace proved over all inputs (fees,
  conservation of a sale's price, permanence of books, one-time
  initialization, invariant preservation, search partition).
- `app/lib.rs`: the Soroban contract that authenticates callers, loads and
  stores the marketplace, performs the token transfers and publishes events.
- `tests/`: scenarios run against the library.
