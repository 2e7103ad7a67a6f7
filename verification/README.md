# folia

A library for the [FoLiA](https://proycon.github.io/folia) XML format for linguistic
annotation, written in Verus: the library's functions carry contracts that Verus proves;
the calls into `quick_xml`, `hex` and `rand` go through a few trusted functions in `xml`,
`metadata` and `error`, whose contracts are taken on trust.

- `src/` holds the library: the element types and the FoLiA specification (`types`,
  `specification`), attributes (`attrib`), the stores of elements, declarations and
  processors (`store`, `metadata`, `document`), elements (`element`), queries and
  selection (`query`, `select`), adding annotations (`annotation`), text (`text`), the
  parser (`xml` reads the XML events with `quick_xml`, `parser` is the state machine that
  builds a document from them, step by step) and the serialiser (`serialiser`).
- `tests/` holds the tests.
- `app/` holds `folialintr`, a command line tool that loads FoLiA files, prints them as
  XML again, or measures how long parsing takes.
