# lytt

The verified core of the Lytt HTTP API server (audio transcription and RAG).

- `src/util.rs`: `format_seconds`, durations as `MM:SS` or `HH:MM:SS`.
- `src/jobs.rs`: `JobTracker`, the media IDs under background processing and
  the failed ones, with the laws of claiming and finishing a job.
- `src/api.rs`: the decisions of the request handlers, as steps from what the
  store, the embedder or the language model returned to the reply or to the
  next piece of outside work.
- `app/`: the axum server that performs the outside work and runs the steps.
