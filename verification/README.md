# ipano

IP panorama report: one address, many information sources, one merged
report, plus optional checks (streaming/AI unlock probes, mail ports,
return routes to Chinese carriers, DNS blocklists, speed test).

## Layout

- `src/` — the library, verified with Verus: decoding each source's answer,
  the merge by source priority and the data-centre vote, the heuristic
  verdict, the terminal (boxed tables through comfy-table and owo-colors;
  the contracts name the printed text, and where a table has coloured cells
  it comes with or without the colour codes, as `NO_COLOR` decides), the JSON
  document (printed by serde_json), Markdown and raw renderings, the
  unlock classifiers, traceroute bookkeeping and packet codec, route line
  classification, blocklist listing rules, the mail-port matrix, speed-test
  node selection, the menu and the run settings. Contracts are stated over
  plain models (`Seq`, `Option`, views of the data types); laws that relate
  several functions are public proof functions (`lemma_*`).
- `app/` — the command-line program around the library: options (clap), the
  configuration file (toml), HTTP (reqwest), DNS and TCP (tokio), ICMP
  sockets (libc), and the speed test, whose measurements, tables and JSON
  members are floating point.
- `tests/` — tests of the library on concrete values.

Decimal quantities that sources report (coordinates, traffic shares) are
kept as the decimal text the source gave.
