# s3_resume

Resume support for interrupted S3 downloads, verified with Verus.

A download whose body stream breaks is taken up again with a `Range` request for the bytes that
are missing, while the consumer keeps reading from the same stream.

- `src/` is the verified library. It does no I/O: `reader` takes events and answers with actions.
  `model` states the reader as a transition system and `laws` proves what holds of a whole
  download: the consumer gets the bytes of the object in order, none lost and none twice; the
  retry budget is never overspent; delays double up to a limit; a failure that is reported is
  final. `request` builds the requests, `sdk` reads what the S3 SDK returns, and `error` says which
  I/O errors are worth a retry.
- `app/` drives the reader over the streams of an S3 client, as an `AsyncRead`.
- `tests/` run the library over canned streams and SDK values.

What is taken on trust is small and stands in `src/sdk.rs` and `src/error.rs`: accessors of the
SDK and of `std::io::Error`, and the text that an SDK error displays.
