# spaghetti

Hooks the functions of an Unreal Engine blueprint so that objects of a hook
class, found at run time in a folder of the game, are called before and after
each function. The library is written in Verus and its behaviour is proved
against the contracts stated on each function.

## Layout

- `src/` — the verified library
  - `version.rs`: engine versions and the parser for their names
  - `index.rs`: package references and the visitor that walks them
  - `kismet.rs`, `fprop.rs`, `uprop.rs`, `props.rs`, `export.rs`: the parts of
    an asset that hooking and moving exports read and write, with the walks
    over every reference they hold and the byte size of Kismet bytecode
  - `transplant.rs`: an asset's imports and names, and moving an export from
    one asset into another with its imports resolved
  - `hook.rs`: the bytecode, imports and local variables that hook one
    function
  - `blueprint.rs`: hooking every function of a blueprint
  - `strings.rs`: small string helpers
- `tests/` — tests of the library
- `app/` — the command line program: argument handling, file dialogs,
  reading and writing assets with `unreal_asset`, and the conversion between
  its types and the library's

## Model of the asset

The library holds what hooking reads and writes as plain values. Two of
`unreal_asset`'s `IndexedMap`s are held as vectors: the class function map
(`Vec<FuncMapEntry>`, where `func_map_insert` replaces the entry of a name
already there or appends one) and the entries of a map property
(`Vec<MapEntry>`, in their order). `app/` converts between these and
`unreal_asset`'s types when it reads and writes an asset.
