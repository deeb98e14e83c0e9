# cargo-crapapp

A cargo plugin that reads `CRAP.toml`, builds the configured targets and
bundles them, written as a Verus-verified library with a thin program around
it.

## Layout

- `src/` is the verified library (`cargo_crapapp`):
  - `manifest_file`, `platform_manifests`, `platform_manifest`,
    `target_manifest`, `bundlers`, `report`: the manifest, what each platform
    builds, and the `inspect` report;
  - `services`: build variables, payload files, icons, the build manifest, the
    `cargo` invocations and the Windows setup bundle;
  - `windows_installer`: the installer configuration, the registry and
    uninstall rules, the installer's screen flow, and the MSI package plan:
    tables, rows, dialogs, identities, the schema, and the table order that
    `finalizer` and `resort` put a finished database in;
  - `text`, `path_model`, `package_metadata`: strings, paths and names.
- `tests/` exercises the library on concrete values.
- `app/` is the program: command line, file system, `cargo`, and the `msi`,
  `cab`, `cfb`, `cargo_metadata`, `toml` and `serde_json` crates.

Run `cargo crapapp inspect [--output json]`, `cargo crapapp build` or
`cargo crapapp bundle [--no-build]`.

## Notes on the model

- Paths follow `std::path` as it reads them with `/` as the only separator:
  components, file names, parents (the text before the last component, as
  `Path::parent` slices it) and joins.
- Collections keyed by integers stay ordered maps: the finalizer groups
  `_Columns` rows by table id in a `BTreeMap<u64, _>`. Collections keyed by
  text are vectors with the invariants the maps gave: the MSI directory ids
  (one entry per root and path, in declaration order) and the directories'
  parents (a list looked up by key and sorted by it). A `String`-keyed map's
  contracts say too little to prove the directory rows from.
