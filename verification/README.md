# evm_rpc_dashboard

The decisions of two parts of a Solana-style validator that bridges an EVM, with
their contracts proved:

- `src/chain_mock.rs`, `src/basic.rs`, `src/commitment.rs`, `src/rpc_types.rs`: what
  the EVM JSON-RPC methods answer, given what the ledger holds: block tags and the
  commitment they select, placeholder and ledger blocks, transactions, receipts and
  the parameters of an EVM call.
- `src/dashboard.rs`, `src/monitor.rs`: what the validator's terminal dashboard shows
  (header, node lines, status line, health) and `DashboardMachine`, which decides
  after each answer from the validator what to ask or show next.
- `src/numeric_text.rs`: decimal and hexadecimal text of numbers, and reading
  decimal numbers back.

`app/` holds the validator-side work the library leaves out: reading banks, running
the EVM, the admin and JSON-RPC clients, the spinner and the pauses.
