# rig-gemini-grpc

Gemini over gRPC for Rig, with its logic proved in Verus.

`src/` is a verified library. It turns Rig's completion requests into Vertex AI messages, reads
responses back, runs streams and embedding batches, chooses endpoints and ways to authenticate, and
sets the metadata of requests. It does no I/O: what comes from the network, the environment or
the credentials is handed to it as plain values.

- `text`, `model`, `json`, `encoding`, `error`: strings, collections, JSON and base64
- `message`, `proto`: Rig's messages and the service's, as plain data with their mathematical views
- `call_metadata`, `endpoint`, `client`: request metadata, channels and the Google AI Studio client
- `vertex`: the Vertex AI client, completions, streams, embeddings and protobuf values

Floating point numbers are held as their IEEE 754 bit patterns. Functions whose names start with
`law_` state what holds of several functions together.

`app/` connects channels, sends requests and implements Rig's traits.
