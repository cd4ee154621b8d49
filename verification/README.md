# tanoshi

The verified core of the tanoshi manga reader.

`src/` is a Verus library. Each web component of the client (the top-level
app, the navigation bar, the reader toolbar, the manga page and the settings
page) is a state machine there: a message and the current state give the next
state, whether the component is drawn again, and the requests, storage writes
and DOM changes that follow, in order. The answers of the server are turned
into messages by verified functions too, and so is what each page shows that
it computes (chapter names and links, account rows, highlighted choices).
Beside them stand the grammar of the client's routes (read and written as the
router does, with the round trips proved), the decoding of a favorite's title
on the server, and the lookup of a manga by its path in a source.

`app/` holds the yew components that keep their state in the library and carry
out its decisions in the browser. The client's storage, API client, router
pages and shared widgets come from the rest of the client through the
`Backend` trait.

`tests/` runs the library on concrete values.
