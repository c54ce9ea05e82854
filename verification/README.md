# asset_agent

A deterministic maintenance agent for a high-pressure pump, with its decision
logic verified by Verus.

- `src/` is the verified library: the output guard that judges text written by
  a language model, the choice between guarded output and the template
  explanation, the risk and action ladders of the safety policy, the checklist,
  the OPC UA input and output node contracts, the bounded frame buffer and its time
  windows, replay
  selection, identifiers of stored cases and runs, feedback rules, and the
  request-level decisions of the HTTP API and the command-line tool. Each public
  function carries a contract over spec functions; the laws of the library
  (for example, that an output passing the guard never changes the risk level,
  claims certainty or asks for plant control) are public proof functions.
- `app/` is the program around it: the HTTP API and the operator commands,
  SQLite storage, OPC UA client and server, the optional language-model runner,
  and the floating-point model (NPSH, belief grid, forecast, counterfactual
  costs), which hands each threshold comparison to the library as a `bool`.
- `tests/` runs the library on concrete values.
