# smart_file_duplicate_manager

The banner and copyright footer that the Smart File Duplicate Manager prints
around each run, as a verified library.

- `src/decimal.rs` — decimal numerals of unsigned integers, with the proof
  that a numeral is canonical and reads back as its number.
- `src/banner.rs` — the banner (`<name> v<version>` and an empty line) and
  the footer (copyright line with the year, then the repository line).
- `app/main.rs` — the program: prints the banner, then the footer.
