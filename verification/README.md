# Parley

The logic of a privacy-first meeting recorder, as a Verus library: executable
Rust whose behaviour is stated in contracts and proved.

- `src/` is the library. It works on plain values only: texts, numbers, moments
  in time and the states of the program's pages. Each module states what its
  values are in spec functions, what its functions do in `requires` and
  `ensures`, and what holds across functions in public proof functions.
- `tests/` runs the library on concrete values.
- `app/` is the program around it: reading events, files and settings, asking
  for releases, showing notifications, and floating point.

The modules:

| module | what it holds |
| --- | --- |
| `text`, `words`, `numbers`, `paths`, `sorting`, `text_map` | texts, numbers, paths, stable sorting and maps with text keys |
| `clock` | moments, local dates and times, and their texts |
| `json` | JSON objects of which only some members are known |
| `whisper` | the speech engine: models, downloads, decoding, cleaning its output |
| `recording` | the live transcript, the recording page, devices |
| `meeting` | the page of one meeting: transcript, summary, speakers, notes, action items, calendar |
| `action_items`, `import`, `onboarding`, `settings`, `shell` | the other pages and the frame around them |
| `notifications`, `tray`, `fonts`, `updates` | the desktop |

What the library has from other crates (chrono, semver, serde_json) and from the
parts of std that have no specification stands behind small functions with a
contract that is believed, not proved. Each is marked
`#[verifier::external_body]`, and its doc comment says what it claims.
