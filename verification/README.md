# plexmcp_billing

The billing rules of the PlexMCP gateway, written in Verus and verified:
subscription tiers and tier changes, admin changes, reactivation credit,
pausing, refunds and proration, tax identifiers and totals, invariant
summaries, overage pricing, and Stripe webhook signature checks and routing.

- `src/` is the verified library. Each module states its rules as spec
  functions, and every public function's contract pins its result to them.
  Calls into outside crates (`uuid`, `time`, `chrono`, `hmac`/`sha2`, `hex`,
  `async-stripe` IDs) stand behind small trusted wrappers whose contracts say
  what those crates' sources show.
- `tests/` exercises the library with the real outside crates linked.
- `app/` is the unverified I/O around it: the Stripe API, the Postgres
  database, webhook payloads and serde copies of the library's types. It
  reads what a rule needs, hands it to the library and carries out the
  answer.
