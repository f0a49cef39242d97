# anchor_programs

The rules of seven small Solana programs, written in Verus and proved
against their contracts:

| module     | program                                                        |
|------------|----------------------------------------------------------------|
| `vault`    | a lamport vault, filled once and emptied by its owner          |
| `election` | an election with candidates, one vote record per payer         |
| `events`   | an event registry with limited seats and attendance NFTs      |
| `blog`     | user accounts that number their posts                          |
| `todo`     | a todo list whose items are numbered and marked once           |
| `vesting`  | a company vesting registry with employee schedules             |
| `voting`   | polls numbered by a 64-bit id, with candidates and vote counts |

`key` holds the 32-byte address type and the seed builders, `text` the
decimal text of integers.

Each instruction is a function from the state of its accounts (and its
arguments) to the new state and, where the program calls another program,
the plain values of that call. Program-derived addresses are described by
their seeds. Laws that span instructions are public proof functions at the
end of each module.

`app/` holds the on-chain side: the Anchor account declarations, the
sysvar reads, and the system- and token-program calls the rules ask for.
