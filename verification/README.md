# python_resource

The part of PyOxidizer's Starlark layer that exposes Python resources to build
scripts: resource locations (`default`, `in-memory`, `filesystem-relative:<prefix>`),
the add-collection context of a resource, and the attributes through which a
script reads and writes them.

- `src/` is the library, verified with Verus:
  - `text.rs`: character-wise string comparison;
  - `location.rs`: parsing and showing resource locations;
  - `context.rs`: the add-collection context and its attributes;
  - `resource_value.rs`: the extension-module and file values and the
    `ResourceCollectionContext` trait;
  - `resource.rs`: which resources become Starlark values, and of what type;
  - `value.rs`, `error.rs`: the values and errors handed to and from Starlark;
  - `outside.rs`: the calls into python-packaging and tugger-file-manifest;
  - `laws.rs`: properties that relate several functions.
- `app/` implements starlark's `TypedValue` for the values, reads Starlark values
  into `InputValue`s, and converts between
  the library's types and those of python-packaging and starlark.
- `tests/` runs the library on concrete values.
