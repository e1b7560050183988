# sagepas

The rules of the SagePAS policy administration service as a verified
library, with the service edge around it.

- `src/` — the library, verified with Verus: business identifiers and
  lifecycle rules, roles and token claims, underwriting, rating and
  pricing tables, the policy and premium ledgers, out-of-sequence
  endorsements, event storage and projection, conversation facts, the
  document pipeline's decisions, and the layout of policy documents.
  Each public function states its result in its `ensures`; the `lemma_*`
  proof functions state properties that hold across calls.
- `tests/` — tests of the library on concrete values.
- `app/` — the edge: PostgreSQL and Redis stores, HTTP clients of the
  outside services, PDF drawing, blob storage, token verification and the
  computations on floating-point values.
