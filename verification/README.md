# summarizer_api

A web service that lets signed-in users upload PDF, DOCX and plain-text
documents and asks a language model to summarise them, in English or
Indonesian.

- `src/` is the verified library: request checks, the reply each endpoint
  sends, upload naming and storage paths, the text of uploaded DOCX files
  and the reporting of PDF reads, the summary prompt, and the
  sign-up/sign-in rules, each with a contract proved by Verus. `src/laws.rs`
  holds the properties that tie these steps together.
- `app/` is the server around it: actix-web routes, the PostgreSQL store,
  file I/O, the object-store client and the OpenAPI
  description. It hands the library plain values and sends what it returns.
- `tests/` runs the library on concrete values.
