# fateswap

The verified core of FateSwap, a provably fair prediction market on Solana:
players place "fate orders" at one of 210 multipliers (1.01x to 10x) against a
pool of liquidity providers, after the settler has committed on-chain to the
SHA-256 of a server seed; the seed is revealed at settlement.

`src/` is a Verus library. It holds the protocol's accounts as plain data and
every decision of its instructions, each with a contract proved by Verus:

- `math`: the allowed multipliers, bet limits, payouts and basis-point shares;
- `state`: the clearing house, orders, player and referral states;
- `instructions`: one module per instruction; each handler checks the
  instruction's rules and updates the accounts, or refuses and changes nothing;
- `laws`: properties across instructions (the vault stays solvent and its
  liability tracks the pending orders, an order is paid out at most once,
  settlement versus reclaim, commitments and referrers used once across any
  sequence of instructions, configuration bounds, LP shares never diluted and
  the minimum liquidity burned on the first deposit locked for good).

`app/` is the Anchor program around the library: account validation, the
clock and rent sysvars, system and token transfers, and event logging.
It exposes every instruction of the program except `create_lp_metadata` (creating the
LP token's Metaplex metadata account), which is left out; `update_lp_metadata`
updates that metadata once it exists.

`tests/` exercises the library on concrete values.
