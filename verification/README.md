# erc721

A non-fungible token contract for a Casper-style host, split in two:

- `src/` is the verified library. `keys` builds the names of the contract's
  records (with the host's own formatting of account hashes and 256-bit
  numbers) and proves that distinct records get distinct names; `uint` holds
  the 256-bit numbers; `decide` holds the decision of each entry point, from
  the records it reads to the exact list of records it writes, which
  both `app/` and the in-memory `Token` apply; `state` is the abstract
  contract state and what each entry point does to it; `token` and
  `contract` run the entry points on records held in memory; `install` gives
  the records and entry points that installation creates; `laws` proves what
  every entry point keeps (every balance counts the tokens owned, and the
  balances add up to the supply) and how successive requests relate.
- `app/` is the contract itself: its entry points read arguments and records
  from the host, ask the library, and write the records it answers with or
  revert.
