use lytt::api::{
    choose_model, default_limit, default_max_chunks, failure_reply, join_contents, media_detail,
    media_failure_reply, not_found_reply, section_title_or_empty, summary_after_cache,
    summary_from_cache, summary_from_chunks, summary_from_model, transcribe_after_lookup,
    transcribe_begin, transcribe_claim, ChunkText, ModelReply, Status, StoredChunk, SummaryBody,
    SummaryStep, TranscribeResponse, TranscribeStep,
};
use lytt::jobs::JobTracker;

fn chunk(title: &str, section: Option<&str>, content: &str) -> StoredChunk {
    StoredChunk {
        video_title: title.to_string(),
        section_title: section.map(|s| s.to_string()),
        content: content.to_string(),
    }
}

#[test]
fn status_codes() {
    assert_eq!(Status::Success.code(), 200);
    assert_eq!(Status::Accepted.code(), 202);
    assert_eq!(Status::BadRequest.code(), 400);
    assert_eq!(Status::NotFound.code(), 404);
    assert_eq!(Status::InternalServerError.code(), 500);
}

#[test]
fn request_defaults() {
    assert_eq!(default_limit(), 5);
    assert_eq!(default_max_chunks(), 10);
}

#[test]
fn model_choice_prefers_the_request() {
    let configured = "gpt-4o-mini".to_string();
    assert_eq!(choose_model(Some("gpt-4o".to_string()), &configured), "gpt-4o");
    assert_eq!(choose_model(None, &configured), "gpt-4o-mini");
}

#[test]
fn section_title_defaults_to_empty() {
    assert_eq!(section_title_or_empty(Some("Intro".to_string())), "Intro");
    assert_eq!(section_title_or_empty(None), "");
}

#[test]
fn failure_and_not_found_replies() {
    let (status, body) = failure_reply("db down".to_string());
    assert_eq!(status, Status::InternalServerError);
    assert_eq!(body.error, "db down");
    let (status, body) = not_found_reply(&"abc123".to_string());
    assert_eq!(status, Status::NotFound);
    assert_eq!(body.error, "Media not found: abc123");
}

#[test]
fn transcribe_rejects_unsupported_input() {
    let step = transcribe_begin(None, false);
    assert_eq!(
        step,
        TranscribeStep::Respond(
            Status::BadRequest,
            TranscribeResponse {
                success: false,
                media_id: String::new(),
                title: String::new(),
                chunks_indexed: 0,
                error: Some("Unsupported input format".to_string()),
            }
        )
    );
}

#[test]
fn transcribe_forced_skips_the_lookup() {
    assert_eq!(transcribe_begin(Some("id1".to_string()), true), TranscribeStep::Claim("id1".to_string()));
    assert_eq!(
        transcribe_begin(Some("id1".to_string()), false),
        TranscribeStep::LookUpIndexed("id1".to_string())
    );
}

#[test]
fn transcribe_answers_indexed_media_at_once() {
    let chunks = vec![chunk("Talk", None, "a"), chunk("Other", None, "b")];
    let step = transcribe_after_lookup("id1".to_string(), Ok(chunks));
    assert_eq!(
        step,
        TranscribeStep::Respond(
            Status::Success,
            TranscribeResponse {
                success: true,
                media_id: "id1".to_string(),
                title: "Talk".to_string(),
                chunks_indexed: 2,
                error: None,
            }
        )
    );
}

#[test]
fn transcribe_claims_when_nothing_is_indexed_or_lookup_fails() {
    assert_eq!(transcribe_after_lookup("id1".to_string(), Ok(vec![])), TranscribeStep::Claim("id1".to_string()));
    assert_eq!(
        transcribe_after_lookup("id1".to_string(), Err("store".to_string())),
        TranscribeStep::Claim("id1".to_string())
    );
}

#[test]
fn transcribe_claim_starts_one_job_only() {
    let mut jobs = JobTracker::new();
    let (status, body, start) = transcribe_claim(&mut jobs, "id1".to_string());
    assert_eq!(status, Status::Accepted);
    assert!(start);
    assert_eq!(
        body,
        TranscribeResponse {
            success: true,
            media_id: "id1".to_string(),
            title: String::new(),
            chunks_indexed: 0,
            error: None,
        }
    );
    let (status, _, start) = transcribe_claim(&mut jobs, "id1".to_string());
    assert_eq!(status, Status::Accepted);
    assert!(!start);
    jobs.finish("id1", Ok(()));
    let (_, _, start) = transcribe_claim(&mut jobs, "id1".to_string());
    assert!(start);
}

#[test]
fn get_media_reports_failed_jobs_first() {
    let mut jobs = JobTracker::new();
    assert!(media_failure_reply(&jobs, "v").is_none());
    jobs.finish("v", Err("ffmpeg missing".to_string()));
    let (status, body) = media_failure_reply(&jobs, "v").unwrap();
    assert_eq!(status, Status::InternalServerError);
    assert_eq!(body.error, "ffmpeg missing");
}

#[test]
fn get_media_not_found_and_store_error() {
    let (status, body) = media_detail("v".to_string(), Ok(vec![])).unwrap_err();
    assert_eq!(status, Status::NotFound);
    assert_eq!(body.error, "Media not found: v");
    let (status, body) = media_detail("v".to_string(), Err("io".to_string())).unwrap_err();
    assert_eq!(status, Status::InternalServerError);
    assert_eq!(body.error, "io");
}

#[test]
fn get_media_lists_the_chunks() {
    let chunks = vec![chunk("Talk", Some("Intro"), "hello"), chunk("Talk", None, "world")];
    let detail = media_detail("v".to_string(), Ok(chunks)).unwrap();
    assert_eq!(detail.video_id, "v");
    assert_eq!(detail.video_title, "Talk");
    assert_eq!(detail.chunk_count, 2);
    assert_eq!(
        detail.chunks,
        vec![
            ChunkText { title: "Intro".to_string(), content: "hello".to_string() },
            ChunkText { title: String::new(), content: "world".to_string() },
        ]
    );
}

#[test]
fn transcript_joins_with_spaces() {
    assert_eq!(join_contents(&vec![]), "");
    assert_eq!(join_contents(&vec![chunk("t", None, "one")]), "one");
    assert_eq!(
        join_contents(&vec![chunk("t", None, "one"), chunk("t", None, "two"), chunk("t", None, "three")]),
        "one two three"
    );
}

#[test]
fn summary_cache_hit_is_answered_at_once() {
    assert_eq!(
        summary_from_cache(Ok(Some("• point".to_string()))),
        SummaryStep::Respond(Status::Success, SummaryBody::Summary("• point".to_string()))
    );
    assert_eq!(summary_from_cache(Ok(None)), SummaryStep::FetchChunks);
    assert_eq!(
        summary_from_cache(Err("sqlite".to_string())),
        SummaryStep::Respond(Status::InternalServerError, SummaryBody::Error("sqlite".to_string()))
    );
}

#[test]
fn summary_prompt_from_chunks() {
    let chunks = vec![chunk("My Talk", None, "first part"), chunk("My Talk", None, "second part")];
    let step = summary_from_chunks(&"v".to_string(), Ok(chunks));
    let expected = "Summarize the following YouTube video transcript titled \"My Talk\".\n\
         Write 3–5 concise bullet points covering the main topics, key insights, and \
         conclusions. Use • for bullet points. Be specific.\n\nTranscript:\nfirst part second part";
    assert_eq!(step, SummaryStep::AskModel(expected.to_string()));
}

#[test]
fn summary_of_unknown_or_unreadable_media() {
    assert_eq!(
        summary_from_chunks(&"v".to_string(), Ok(vec![])),
        SummaryStep::Respond(Status::NotFound, SummaryBody::Error("Media not found: v".to_string()))
    );
    assert_eq!(
        summary_from_chunks(&"v".to_string(), Err("io".to_string())),
        SummaryStep::Respond(Status::InternalServerError, SummaryBody::Error("io".to_string()))
    );
}

#[test]
fn summary_model_replies() {
    assert_eq!(
        summary_from_model(ModelReply::RequestRejected("bad".to_string())),
        SummaryStep::Respond(Status::InternalServerError, SummaryBody::Error("bad".to_string()))
    );
    assert_eq!(
        summary_from_model(ModelReply::CallFailed("timeout".to_string())),
        SummaryStep::Respond(
            Status::InternalServerError,
            SummaryBody::Error("OpenAI error: timeout".to_string())
        )
    );
    assert_eq!(
        summary_from_model(ModelReply::Answered(None)),
        SummaryStep::Respond(
            Status::InternalServerError,
            SummaryBody::Error("Empty response from OpenAI".to_string())
        )
    );
    assert_eq!(
        summary_from_model(ModelReply::Answered(Some("sum".to_string()))),
        SummaryStep::CacheSummary("sum".to_string())
    );
}

#[test]
fn summary_is_answered_even_when_caching_fails() {
    let ok = summary_after_cache("sum".to_string(), Ok(()));
    let failed = summary_after_cache("sum".to_string(), Err("disk full".to_string()));
    let expected = SummaryStep::Respond(Status::Success, SummaryBody::Summary("sum".to_string()));
    assert_eq!(ok, expected);
    assert_eq!(failed, expected);
}
