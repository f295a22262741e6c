# komatag

Generates a `ComicInfo.xml` (v2.0 schema) for comic archives in `.zip`,
`.cbz` or `.7z` format. Metadata comes from three sources, in priority
order: explicit command-line flags, the [Bangumi](https://bgm.tv) API, and
heuristic parsing of the archive's file name.

The library is written in [Verus](https://github.com/verus-lang/verus): every
function in `src/` carries a `requires`/`ensures` contract over mathematical
models (`Seq`, `Option`, integers) and is proved to meet it.

## Layout

| Path | Contents |
|------|----------|
| `src/text.rs` | Character-sequence utilities (trim, find, lower-case, decimal printing and parsing), each specified by an open spec function |
| `src/pattern.rs` | Regular-expression searches through the `regex` crate; what a pattern matches is a named, uninterpreted result |
| `src/filename_parser.rs` | File-name heuristics: publisher, series, volume, issue number, year |
| `src/comic_info.rs` | The ComicInfo document, its enums, merging, XML escaping and serialization |
| `src/archive.rs` | Archive format detection, image listing and sorted page order, injection rules |
| `src/bangumi.rs` | Bangumi API URLs, search-hit display, infobox flattening and the subject → ComicInfo mapping |
| `src/metadata.rs` | Command-line overrides, assembly from the three sources, Bangumi subject selection, output decisions |
| `tests/` | Tests on concrete values |
| `app/` | The command-line program: argument parsing, archive reading and writing, HTTP |

Laws of the library (merge priorities, escaping, page roles, source
priority, …) are public `proof fn`s named `law_*` in the module they concern.

## Trusted code

The only unverified code in `src/` is a handful of `#[verifier::external_body]`
wrappers around `regex` and `std::path`, and the conversion of a character
slice into a `String`. Each wrapper's doc comment says what its contract
claims of the outside function.

## Usage

```sh
komatag gen "My Series v02 #015 (2022) (Publisher).cbz"
komatag gen --inject --bangumi-id 8491 "Attack on Titan v01 (2009).cbz"
komatag search "進撃の巨人"
```
