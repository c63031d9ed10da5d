# ltengine

The decision logic of a self-hosted machine translation service with a LibreTranslate-compatible
API, verified with Verus, and the server round it.

Texts are put to a large language model on an inference server that speaks the OpenAI chat
completions API (Ollama, vLLM, llama.cpp server). The library decides what a request is answered,
what the model is asked, what its replies mean and when something is tried again. The server does
the input and output.

## Layout

- `src/` is the library.
  - `request`, `service`, `error_response`, `args`: validation of requests, the steps of a
    translation, the answers of the endpoints.
  - `backend`: the provider manager with its retries, the chat completions protocol, error
    mapping, backoff, rate-limited warnings.
  - `detection`, `languages`, `table`, `prompt`: reading the language that a model names, looking
    languages up, the languages on offer, the prompts.
  - `cleanup`, `formatting`: invisible characters, punctuation and case of model output.
  - `static_files`, `benchmark`: files of the frontend, judging a dataset.
  - `text`, `std_text`: text helpers, and what is taken on trust about the standard library.
- `app/` is the server: command line, HTTP, clocks, locks, statistical language detection.
- `tests/` runs the library.

Executable functions state in their contracts what they return. Public proof functions named
`law_...` state what holds across functions, such as that a cleaned text is clean, that transient
failures are retried and others are not, and that a request without the key of the service
never passes.

## What is taken on trust

Unicode case mappings and a few small functions of the standard library, the `Debug` form of a list
of strings, and the byte comparison of `subtle`. Each stands beside a doc comment that says what is
claimed of it.
