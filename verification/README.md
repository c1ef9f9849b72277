# llm_connector

Mapping between a provider-neutral chat model and what chat providers send and take, as a Verus
library.

- `src/text.rs`, `src/json.rs`: text operations, and JSON values as trees.
- `src/block.rs`, `src/message.rs`, `src/tool.rs`, `src/chat.rs`, `src/capabilities.rs`,
  `src/error.rs`: the chat model.
- `src/request.rs`, `src/openai_compatible.rs`: conversion for OpenAI-compatible providers.
- `src/anthropic/`: requests, responses, errors and streams of the Anthropic messages API.
- `src/openai_laws.rs`, `src/anthropic/laws.rs`: what holds of every conversion.
- `app/`: decoding with serde, floats, and streams over HTTP.

A JSON value of `serde_json` is opaque to the proofs. What it holds is named by `json_view`, and the
few calls that make, read, parse and print one carry contracts that are believed; their doc comments
say what is believed of each. So are those on `Debug` of a text and on the clock.

The numbers `temperature` and `top_p` are kept by their bits, and what serde makes of a text is given
to the library by its callers.
