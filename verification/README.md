# pubky_app_specs

Data model operations for Pubky App objects (posts, files, bookmarks, tags and
user profiles), written in Verus with their contracts proved.

- `src/kind.rs`: post kinds and their names.
- `src/ids.rs`: timestamp ids and hash ids in Crockford's Base32, through the
  `base32` and `blake3` crates.
- `src/paths.rs`: where each object is stored (`/pub/pubky.app/...`).
- `src/uri.rs`: reading `pubky://` URIs, with the laws that tie them to paths.
- `src/models.rs`: the objects and their id checks.
- `src/response.rs`: the JSON answers that report success or failure.
- `src/api.rs`: the operations that build and check objects from plain values.
- `app/lib.rs`: the C-compatible exports, which read C strings, read the clock
  and turn objects into JSON with `serde_json`.
