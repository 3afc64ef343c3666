# mmolb_parsing

Parsing of MMOLB game event messages and feed event texts into typed values,
and writing those values back as the game writes them, verified with Verus.

## Library (`src/`)

- `parsing`: `process_game`, `process_event` and `parse_event` turn each event of
  a game into a `ParsedEventMessage`. Every value returned writes back, through
  `ParsedEventMessage::unparse`, to exactly the message it was read from; a
  message that cannot be read comes back as a parse error holding it. The common
  forms (the start of play, lineups, the pitching matchup, the game going live,
  the start and end of an inning, batters coming up with or without statistics,
  plain walks, balls, strikes, fouls and balls in play, mound visits, pitchers
  remaining, solo home runs, singles, doubles, triples, ground outs and fly,
  line and pop outs with no runner moving, balks, falling stars, the final
  score, parties, runners scoring and advancing after walks, hits, ground
  outs, catches and home runs, cheers after pitches, photos of the aurora
  after a ball) are read whenever a message has them and its names can be
  told from the words around them; a ball with one runner stealing, pitcher
  swaps, force outs, double plays, fielder's choices and errors are read
  rather than refused.
- `parsed_event`: the parsed values and how each is written, season by season.
- `feed`, `feed_parsing`: feed events, their parsed texts, and the same
  guarantee for them; releases, final scores, single attribute gains,
  deliveries, prosperity, retirements, modifications and players moved to the
  mound or the plate are read whenever a text has their form, and game and
  augment feed events in the other forms their readers know are read rather
  than refused.
- `reader`: cutting messages into parts.
- `enums`, `places`, `stats`, `attributes`: named values, fielding places and
  batting statistics, each read back from the text it is written as.
- `innings`, `time`: sides, innings, and the points in the game's history at
  which message formats changed.
- `game`, `records`, `text`: games and events, markers for fields that data
  lacks, and text helpers.

## Around it (`app/`)

Reading games and feed events from the API's JSON into the library's types.

## Messages not read

Some messages are written in a tense or a format that changed at points in the
game's history whose dates this project does not know (the change to the
present tense, and the later changes to item discards and weather events), or
name foods whose list it does not have. Their kinds are left out of
`ParsedEventMessage` and the feed texts, and such messages come back as parse
errors holding the message: strikeouts, batters hit by a pitch, grounded double
plays, the outcomes of falling stars, deliveries, shipments and special
deliveries, prosperity and photo contests, wither, consumption contests, lineal
belt transfers, and the team and player feed texts that depend on those changes.
