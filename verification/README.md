# tapioca

Typed access to REST+JSON APIs described by an OpenAPI 3.0.0 schema.

`src/` is the library, verified with Verus:

- `auth` (HTTP Basic credentials and API keys), `query`, `datatype`, `response`, `json_response`, `traits`: what a
  generated client uses at run time — HTTP Basic credentials, query strings,
  and responses sorted into successes and failures by their status.
- `yaml`: the YAML document that schema inference reads.
- `infer`: schema inference — the Rust types, names, parameters, request
  bodies, security requirements and responses of every operation of an API.
- `source`: where a schema comes from — the URL in the macro input, the cache
  file, and the first document of its YAML text (parsed with `yaml-rust`).
- `naming`, `text`: identifier case conversions and string helpers.

`app/` holds the I/O around it: reading a cached schema or fetching it,
sending requests with `reqwest`, and the `Display` form of Basic
credentials.

`tests/` runs the library on concrete schemas and responses.
