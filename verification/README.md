# oi_platform

An operational-intelligence platform: a content crew (research, analyst,
writer, editor), hiring-transcript analysis with line-level evidence, and
initiative queries against a mock analytics model, with signed audit traces
and human approval before results are final.

## Layout

- `src/` — the verified library (Verus). Each public function states what it
  returns or changes over a mathematical model (`Seq<char>` for strings,
  `StoreView` for the store, `RecordView` for workflow records), and
  `src/laws.rs` proves the properties that span several operations: what a
  read gives back after a save, how traces grow, how an approval decision
  settles a workflow, the order of the crew's agents, what transcript
  parsing and hiring citations guarantee, and how added evidence affects
  evaluation. The tools' descriptors, input schemas included, are built
  there too; app/ only writes them out as JSON.
- `tests/` — tests of the library on concrete values.
- `app/` — the program around the library: the command line, the HTTP API,
  JSON persistence, the HTTP language-model client, the floating-point
  scores of the evaluator, and the awaits on the model. The content run
  there is driven by the library: `crew::first_stage` and `crew::crew_step`
  give the stages and their order, and `crew::complete_crew_stage` records
  each step's audit event and marks its agent done.
