# word_finder

A terminal program that picks random words from a word list and keeps a word when two
independently drawn random numbers agree. Keys change how likely a match is and how long each
step waits.

- `src/` is the verified library: the options and what each key does to them (`options`,
  `controls`), the search round (`search`, with `rand` and `chrono` behind two trusted
  wrappers), the table of found words (`found_word`), the window frames and the screen layout
  as lists of drawing commands (`window`, `screen`), and text helpers (`text`).
- `app/main.rs` is the terminal front end: it reads `english_words.txt`, runs the threads,
  sleeps, reads keys and prints the drawing commands with `crossterm`.
