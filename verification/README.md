# deluge

Reading, writing and modelling Synthstrom Deluge patches (synths and kits), with the
library's behaviour stated in contracts and proved with Verus.

## Layout

- `src/values/`: the value types of a patch (bounded integers, the `0..=50` parameters
  stored as 32-bit integers, positions, phases, sample paths and their order) with their
  text forms, and the proof that each reads back as written.
- `src/sound/`, `src/kit/`, `src/synth.rs`: the patch model.
- `src/xml.rs`: a plain XML model (elements, attributes, texts) and the lookups the
  loaders use.
- `src/serialization/`: loading every supported document format, writing the latest one,
  and the laws that tie them together:
  - `round_trip.rs` and `laws.rs`: a well-formed patch, written as XML elements, reads
    back from those elements unchanged;
  - `loaded.rs`: whatever reading gives is well-formed, so a patch read in any format,
    written as elements and read again, is the patch that was read;
  - `hex_range.rs`: whether every `0..=50` value of a patch lies in its range; saving
    refuses a patch that holds one outside it.

  The laws are proved over the XML element model. That `xmltree` parses the text it
  writes back into the same elements is trusted, not proved: the text form of the round
  trip is checked by the tests only.
- `src/xml_tree.rs`: parsing and writing XML text with `xmltree`.
- `src/samples.rs`: finding and replacing the sample paths of a patch with `quick-xml`.
- `src/card.rs`, `src/card/`: the folders of a card and the standard patch names.
- `app/`: the file-system side: cards on disk, reading and writing patch files, rewriting
  sample paths in place, WAV metadata through `bwavfile`.
- `tests/`: the tests of the library.
