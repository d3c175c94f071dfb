# publisher_model_rewrite

A proxy filter that rewrites `"model": "publishers/{namespace}/models/{model}"`
in JSON request bodies to `"model": "{model}"`, verified with Verus.

- `src/model_path.rs` — the path grammar, `strip_publisher_prefix`, and the
  proved laws about it (round trip of built paths, reassembly of stripped names).
- `src/json.rs` — the `serde_json` calls, with what is claimed of each.
- `src/filter.rs` — configuration, the filter and its request-body rewrite.
- `app/` — YAML configuration parsing and `bytes::Bytes` plumbing.
