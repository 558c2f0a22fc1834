# erasure

Type erasure for streams, sinks and futures, verified with Verus.

An object of any type that yields items (`PollStream`), takes items (`PollSink`), or
completes with a value (`PollFuture`) is boxed behind a handle whose type names only
what goes in and what comes out (`ErasureRead`, `ErasureWrite`, `Erasure`, `AnyStream`,
`AnySink`, `AnyStreamSink`, `AnyFuture`). Each handle carries a header with the tables of
the operations its object offers. The contracts state which tables each constructor
builds and that each handle answers every sequence of calls at each of its ends exactly
as the object it was given would (`same_stream`, `same_sink`, `same_future`); that an operation may be
called only where its table is present; that no operation changes the tables; and that
each operation is one call of the object's own operation: its answer is one the object
may give next, and afterwards the handle answers as the object does with that call
behind it (`polled`, `sank`, `polled_future`). What an object may answer after a given
history of calls is its `StreamAnswers`, `SinkAnswers` or `FutureAnswers`. Erasing an
object's type (the coercion of its box into a trait object) and borrowing the object
that a `ManuallyDrop` holds are the trusted steps. Handles built on `RawChannel`
(`Erasure`, `ErasureRead`, `ErasureWrite`) and `AnyFuture` never drop their object;
`AnyStream`, `AnySink` and `AnyStreamSink` drop it with themselves.

Layout:

- `src/poll.rs`: the poll traits and the answers they may give, the `Tables` model, declarations of `std::task::Context`
  and `std::task::Poll`.
- `src/raw.rs`: `FramedHeader`, its two tables and `RawChannel` (read, write, framed).
- `src/lib.rs`, `src/stream.rs`, `src/sink.rs`: the handles `Erasure`, `ErasureRead`,
  `ErasureWrite` and the extension traits `ErasureStream`, `ErasureSink`.
- `src/stream_sink.rs`: `StreamSinkVTable`, its two tables, `RawStreamSink` and the handles
  `AnyStream`, `AnySink`, `AnyStreamSink` with `AnyStreamEx`, `AnySinkEx`.
- `src/future.rs`: `AnyFutureVTable`, `AnyFuture`, `AnyFutureEx`.
- `app/lib.rs`: the `futures` face: adapters from `futures` streams and sinks and `std`
  futures to the poll traits, and the handles as `futures` streams and sinks and `std`
  futures.
