# research_master

A verified core for a research-paper assistant: the source clients' logic
(request URLs, how answers are classified, how API records become papers),
citation formatting (APA, MLA, Chicago, BibTeX), search history bookkeeping,
and the decisions of the MCP tool handlers (which source to ask, in which
order, what to answer).

- `src/` is the library, written in Verus: every function carries a
  contract over mathematical models (`Seq`, `Option`, spec functions) and is
  proved to meet it.
  - `models.rs`: papers, search queries and responses.
  - `sources.rs` and `sources/`: capabilities, errors, source selection, and
    one module per source (CiteSeerX, medRxiv, OpenAIRE, ORCID, SciSpace,
    Unpaywall, Zenodo).
  - `utils/text.rs`: string building and the string specifications the rest
    relies on; `utils/cite.rs`: citations; `utils/history.rs`: history.
  - `mcp/unified_tools.rs`: the tool handlers' decisions.
- `app/` holds what stays outside the proofs: HTTP requests, JSON wire
  formats, the history file, the clock and the environment.
- `tests/` runs the library on concrete values.
