//! The decisions of the HTTP API's request handlers, taken on plain values.
//!
//! Each handler of the service alternates outside work (the vector store, the
//! embedder, the language model) with decisions. The decisions stand here as
//! functions from what the outside work returned to the reply, or to the next
//! piece of outside work to do; the server performs that work and hands the
//! result back.

use vstd::prelude::*;
use crate::jobs::{JobTracker, JobsView};

verus! {

/// The HTTP statuses that the API answers with.
#[derive(Clone, Copy, Debug, PartialEq, Eq, Structural)]
pub enum Status {
    Success,
    Accepted,
    BadRequest,
    NotFound,
    InternalServerError,
}

impl Status {
    /// The numeric HTTP status code.
    pub open spec fn numeric(self) -> u16 {
        match self {
            Status::Success => 200,
            Status::Accepted => 202,
            Status::BadRequest => 400,
            Status::NotFound => 404,
            Status::InternalServerError => 500,
        }
    }

    /// The numeric HTTP status code.
    pub fn code(&self) -> (code: u16)
        ensures
            code == self.numeric(),
    {
        match self {
            Status::Success => 200,
            Status::Accepted => 202,
            Status::BadRequest => 400,
            Status::NotFound => 404,
            Status::InternalServerError => 500,
        }
    }
}

/// Body of every error reply.
#[derive(Clone, Debug, PartialEq, Eq)]
pub struct ErrorResponse {
    pub error: String,
}

/// Body of the replies to `POST /transcribe`.
#[derive(Clone, Debug, PartialEq, Eq)]
pub struct TranscribeResponse {
    pub success: bool,
    pub media_id: String,
    pub title: String,
    pub chunks_indexed: usize,
    pub error: Option<String>,
}

/// What the handlers read of a chunk of the vector store.
#[derive(Clone, Debug, PartialEq, Eq)]
pub struct StoredChunk {
    pub video_title: String,
    pub section_title: Option<String>,
    pub content: String,
}

/// What `GET /media/{video_id}` lists of each chunk.
#[derive(Clone, Debug, PartialEq, Eq)]
pub struct ChunkText {
    pub title: String,
    pub content: String,
}

/// The part of the reply to `GET /media/{video_id}` that the stored chunks
/// decide; the timings are added by the server.
#[derive(Clone, Debug, PartialEq, Eq)]
pub struct MediaDetail {
    pub video_id: String,
    pub video_title: String,
    pub chunk_count: usize,
    pub chunks: Vec<ChunkText>,
}

/// Number of search results when the request names none.
pub fn default_limit() -> (limit: usize)
    ensures
        limit == 5,
{
    5
}

/// Number of context chunks for a question when the request names none.
pub fn default_max_chunks() -> (max_chunks: usize)
    ensures
        max_chunks == 10,
{
    10
}

/// The view of an optional string.
pub open spec fn opt_view(s: Option<String>) -> Option<Seq<char>> {
    match s {
        Some(t) => Some(t@),
        None => None,
    }
}

/// The model that answers a question: the one the request names, else the
/// configured one.
pub fn choose_model(requested: Option<String>, configured: &String) -> (model: String)
    ensures
        model@ == match requested {
            Some(m) => m@,
            None => configured@,
        },
{
    match requested {
        Some(m) => m,
        None => configured.clone(),
    }
}

/// The title shown for a chunk: its section title, or the empty string.
pub fn section_title_or_empty(section_title: Option<String>) -> (title: String)
    ensures
        title@ == match section_title {
            Some(t) => t@,
            None => Seq::<char>::empty(),
        },
{
    match section_title {
        Some(t) => t,
        None => String::new(),
    }
}

/// The reply to a failure of outside work: status 500 with its message.
pub fn failure_reply(message: String) -> (reply: (Status, ErrorResponse))
    ensures
        reply.0 == Status::InternalServerError,
        reply.1.error@ == message@,
{
    (Status::InternalServerError, ErrorResponse { error: message })
}

/// The message of a 404 for a media ID with nothing stored.
pub open spec fn not_found_text(video_id: Seq<char>) -> Seq<char> {
    "Media not found: "@ + video_id
}

/// The 404 reply for a media ID with nothing stored.
pub fn not_found_reply(video_id: &String) -> (reply: (Status, ErrorResponse))
    ensures
        reply.0 == Status::NotFound,
        reply.1.error@ == not_found_text(video_id@),
{
    let mut error = String::from_str("Media not found: ");
    error.append(video_id.as_str());
    (Status::NotFound, ErrorResponse { error })
}

// === POST /transcribe ===

/// What the `POST /transcribe` handler does next.
#[derive(Debug, PartialEq, Eq)]
pub enum TranscribeStep {
    /// Answer the request.
    Respond(Status, TranscribeResponse),
    /// Look the media ID up in the vector store and hand the outcome to
    /// [`transcribe_after_lookup`].
    LookUpIndexed(String),
    /// Claim a job for the media ID with [`transcribe_claim`].
    Claim(String),
}

/// `r` is the transcribe reply with these field values.
pub open spec fn transcribe_reply_is(
    r: TranscribeResponse,
    success: bool,
    media_id: Seq<char>,
    title: Seq<char>,
    chunks_indexed: nat,
    error: Option<Seq<char>>,
) -> bool {
    &&& r.success == success
    &&& r.media_id@ == media_id
    &&& r.title@ == title
    &&& r.chunks_indexed == chunks_indexed
    &&& opt_view(r.error) == error
}

/// The error of a transcribe request whose input the parser did not accept.
pub open spec fn unsupported_text() -> Seq<char> {
    "Unsupported input format"@
}

/// First step of `POST /transcribe`, on the media ID that the input parser
/// extracted (`None` when it accepted no input format). An unsupported input
/// is answered 400; a forced request goes straight to claiming a job; any other
/// first asks whether the media is indexed already.
pub fn transcribe_begin(parsed_media_id: Option<String>, force: bool) -> (step: TranscribeStep)
    ensures
        match parsed_media_id {
            None => step matches TranscribeStep::Respond(status, r) && status == Status::BadRequest
                && transcribe_reply_is(r, false, Seq::empty(), Seq::empty(), 0, Some(unsupported_text())),
            Some(id) => if force {
                step == TranscribeStep::Claim(id)
            } else {
                step == TranscribeStep::LookUpIndexed(id)
            },
        },
{
    match parsed_media_id {
        None => {
            let reply = TranscribeResponse {
                success: false,
                media_id: String::new(),
                title: String::new(),
                chunks_indexed: 0,
                error: Some(String::from_str("Unsupported input format")),
            };
            TranscribeStep::Respond(Status::BadRequest, reply)
        },
        Some(id) => if force {
            TranscribeStep::Claim(id)
        } else {
            TranscribeStep::LookUpIndexed(id)
        },
    }
}

/// Whether a store lookup found chunks of the media.
pub open spec fn found_chunks(lookup: Result<Vec<StoredChunk>, String>) -> bool {
    lookup matches Ok(chunks) && chunks@.len() > 0
}

/// Second step of `POST /transcribe`, on the outcome of the store lookup. Media
/// that is indexed already is answered 200 at once, with the title of its first
/// chunk and the number of chunks; otherwise (nothing stored, or the lookup
/// failed) a job is claimed.
pub fn transcribe_after_lookup(media_id: String, lookup: Result<Vec<StoredChunk>, String>) -> (step:
    TranscribeStep)
    ensures
        found_chunks(lookup) ==> (step matches TranscribeStep::Respond(status, r) && status
            == Status::Success && transcribe_reply_is(
            r,
            true,
            media_id@,
            lookup->Ok_0@[0].video_title@,
            lookup->Ok_0@.len(),
            None,
        )),
        !found_chunks(lookup) ==> step == TranscribeStep::Claim(media_id),
        (lookup is Ok && lookup->Ok_0@.len() >= 1) ==> (step matches TranscribeStep::Respond(
            status,
            r,
        ) && status == Status::Success && r.chunks_indexed == lookup->Ok_0@.len()),
        (step is Claim) <==> (lookup is Err || lookup->Ok_0@.len() == 0),
{
    match lookup {
        Ok(chunks) => {
            if chunks.len() > 0 {
                let title = chunks[0].video_title.clone();
                let reply = TranscribeResponse {
                    success: true,
                    media_id,
                    title,
                    chunks_indexed: chunks.len(),
                    error: None,
                };
                TranscribeStep::Respond(Status::Success, reply)
            } else {
                TranscribeStep::Claim(media_id)
            }
        },
        Err(_) => TranscribeStep::Claim(media_id),
    }
}

/// Last step of `POST /transcribe`: check and claim the job of the media in one
/// step. The request is answered 202 either way; the third component says
/// whether this request won the claim, and so has to start the background job.
pub fn transcribe_claim(jobs: &mut JobTracker, media_id: String) -> (reply: (
    Status,
    TranscribeResponse,
    bool,
))
    ensures
        final(jobs)@ == old(jobs)@.claim(media_id@),
        reply.2 == old(jobs)@.claim_wins(media_id@),
        reply.0 == Status::Accepted,
        transcribe_reply_is(reply.1, true, media_id@, Seq::empty(), 0, None),
{
    let key = media_id.clone();
    let claimed = jobs.try_claim(key);
    let reply = TranscribeResponse {
        success: true,
        media_id,
        title: String::new(),
        chunks_indexed: 0,
        error: None,
    };
    (Status::Accepted, reply, claimed)
}

// === GET /media/{video_id} ===

/// First step of `GET /media/{video_id}`: a media whose background processing
/// failed is answered 500 with the failure's message, so that a poller can
/// tell it from one still under way; otherwise (`None`) the chunks are fetched.
pub fn media_failure_reply(jobs: &JobTracker, video_id: &str) -> (reply: Option<(Status, ErrorResponse)>)
    ensures
        match jobs@.failure_of(video_id@) {
            Some(message) => reply matches Some(r) && r.0 == Status::InternalServerError
                && r.1.error@ == message@,
            None => reply is None,
        },
{
    match jobs.failure(video_id) {
        Some(message) => Some(failure_reply(message)),
        None => None,
    }
}

/// `d` lists the chunks in order, each with its section title (or the empty
/// string) and its content.
pub open spec fn lists_chunks(d: MediaDetail, chunks: Seq<StoredChunk>) -> bool {
    &&& d.chunk_count == chunks.len()
    &&& d.chunks@.len() == chunks.len()
    &&& forall|i: int|
        0 <= i < chunks.len() ==> {
            &&& (#[trigger] d.chunks@[i]).title@ == match chunks[i].section_title {
                Some(t) => t@,
                None => Seq::<char>::empty(),
            }
            &&& d.chunks@[i].content@ == chunks[i].content@
        }
}

/// Second step of `GET /media/{video_id}`, on the outcome of fetching its
/// chunks: nothing stored is a 404, a failed fetch a 500 with its message;
/// otherwise the detail with the video title of the first chunk.
pub fn media_detail(video_id: String, fetched: Result<Vec<StoredChunk>, String>) -> (reply: Result<
    MediaDetail,
    (Status, ErrorResponse),
>)
    ensures
        match fetched {
            Err(e) => reply matches Err(r) && r.0 == Status::InternalServerError && r.1.error@ == e@,
            Ok(chunks) => if chunks@.len() == 0 {
                reply matches Err(r) && r.0 == Status::NotFound && r.1.error@ == not_found_text(
                    video_id@,
                )
            } else {
                reply matches Ok(d) && d.video_id@ == video_id@ && d.video_title@
                    == chunks@[0].video_title@ && lists_chunks(d, chunks@)
            },
        },
        (fetched is Ok && fetched->Ok_0@.len() > 0) ==> (reply matches Ok(d) && d.chunk_count
            == fetched->Ok_0@.len() && d.chunks@.len() == fetched->Ok_0@.len() && forall|i: int|
            0 <= i < fetched->Ok_0@.len() ==> (#[trigger] d.chunks@[i]).content@
                == fetched->Ok_0@[i].content@),
{
    match fetched {
        Err(e) => Err(failure_reply(e)),
        Ok(chunks) => {
            if chunks.len() == 0 {
                return Err(not_found_reply(&video_id));
            }
            let video_title = chunks[0].video_title.clone();
            let chunk_count = chunks.len();
            let mut listed: Vec<ChunkText> = Vec::new();
            let mut i: usize = 0;
            while i < chunks.len()
                invariant
                    i <= chunks@.len(),
                    listed@.len() == i,
                    forall|j: int|
                        0 <= j < i ==> {
                            &&& (#[trigger] listed@[j]).title@ == match chunks@[j].section_title {
                                Some(t) => t@,
                                None => Seq::<char>::empty(),
                            }
                            &&& listed@[j].content@ == chunks@[j].content@
                        },
                decreases chunks@.len() - i,
            {
                let title = section_title_or_empty(chunks[i].section_title.clone());
                let content = chunks[i].content.clone();
                listed.push(ChunkText { title, content });
                i = i + 1;
            }
            Ok(MediaDetail { video_id, video_title, chunk_count, chunks: listed })
        },
    }
}

// === GET /media/{video_id}/summary ===

/// Body of the replies to `GET /media/{video_id}/summary`.
#[derive(Clone, Debug, PartialEq, Eq)]
pub enum SummaryBody {
    /// `{"summary": ..}`
    Summary(String),
    /// `{"error": ..}`
    Error(String),
}

/// What the summary handler does next.
#[derive(Debug, PartialEq, Eq)]
pub enum SummaryStep {
    /// Answer the request.
    Respond(Status, SummaryBody),
    /// Fetch the chunks of the media and hand the outcome to
    /// [`summary_from_chunks`].
    FetchChunks,
    /// Ask the language model with this prompt and hand its reply to
    /// [`summary_from_model`].
    AskModel(String),
    /// Store this summary in the cache, then hand the outcome to
    /// [`summary_after_cache`].
    CacheSummary(String),
}

/// How the request to the language model went.
#[derive(Clone, Debug, PartialEq, Eq)]
pub enum ModelReply {
    /// The request could not be built; the builder's message.
    RequestRejected(String),
    /// The call failed; the client's message.
    CallFailed(String),
    /// The call returned; the content of its first choice, if any.
    Answered(Option<String>),
}

/// `step` answers with `status` and the error message `message`.
pub open spec fn responds_error(step: SummaryStep, status: Status, message: Seq<char>) -> bool {
    step matches SummaryStep::Respond(s, SummaryBody::Error(e)) && s == status && e@ == message
}

/// `parts` joined with `sep` between each two of them.
pub open spec fn joined(parts: Seq<Seq<char>>, sep: Seq<char>) -> Seq<char>
    decreases parts.len(),
{
    if parts.len() == 0 {
        Seq::empty()
    } else if parts.len() == 1 {
        parts[0]
    } else {
        joined(parts.drop_last(), sep) + sep + parts.last()
    }
}

/// The contents of the chunks, in order.
pub open spec fn contents_of(chunks: Seq<StoredChunk>) -> Seq<Seq<char>> {
    chunks.map_values(|c: StoredChunk| c.content@)
}

/// The transcript of a media: the contents of its chunks joined by spaces.
pub open spec fn transcript_of(chunks: Seq<StoredChunk>) -> Seq<char> {
    joined(contents_of(chunks), " "@)
}

/// The prompt that asks the model for a summary of a transcript.
pub open spec fn summary_prompt(title: Seq<char>, transcript: Seq<char>) -> Seq<char> {
    "Summarize the following YouTube video transcript titled \""@ + title
        + "\".\nWrite 3\u{2013}5 concise bullet points covering the main topics, key insights, and conclusions. Use \u{2022} for bullet points. Be specific.\n\nTranscript:\n"@
        + transcript
}

/// The contents of the chunks joined by single spaces.
pub fn join_contents(chunks: &Vec<StoredChunk>) -> (transcript: String)
    ensures
        transcript@ == transcript_of(chunks@),
{
    let ghost parts = contents_of(chunks@);
    let mut transcript = String::new();
    let mut i: usize = 0;
    proof {
        reveal_strlit(" ");
    }
    while i < chunks.len()
        invariant
            i <= chunks@.len(),
            parts == contents_of(chunks@),
            parts.len() == chunks@.len(),
            transcript@ == joined(parts.take(i as int), " "@),
        decreases chunks@.len() - i,
    {
        assert(parts.take(i + 1).drop_last() =~= parts.take(i as int));
        assert(parts[i as int] == chunks@[i as int].content@);
        if i > 0 {
            transcript.append(" ");
        }
        transcript.append(chunks[i].content.as_str());
        i = i + 1;
    }
    assert(parts.take(chunks@.len() as int) =~= parts);
    transcript
}

/// First step of the summary handler, on the outcome of the cache lookup: a
/// cached summary is answered at once, a failed lookup is a 500; otherwise the
/// chunks are fetched.
pub fn summary_from_cache(cached: Result<Option<String>, String>) -> (step: SummaryStep)
    ensures
        match cached {
            Ok(Some(summary)) => step == SummaryStep::Respond(
                Status::Success,
                SummaryBody::Summary(summary),
            ),
            Ok(None) => step == SummaryStep::FetchChunks,
            Err(e) => responds_error(step, Status::InternalServerError, e@),
        },
{
    match cached {
        Ok(Some(summary)) => SummaryStep::Respond(Status::Success, SummaryBody::Summary(summary)),
        Ok(None) => SummaryStep::FetchChunks,
        Err(e) => SummaryStep::Respond(Status::InternalServerError, SummaryBody::Error(e)),
    }
}

/// Second step of the summary handler, on the outcome of fetching the chunks:
/// nothing stored is a 404, a failed fetch a 500; otherwise the model is asked
/// to summarise the transcript, titled with the video title of the first chunk.
pub fn summary_from_chunks(video_id: &String, fetched: Result<Vec<StoredChunk>, String>) -> (step:
    SummaryStep)
    ensures
        match fetched {
            Err(e) => responds_error(step, Status::InternalServerError, e@),
            Ok(chunks) => if chunks@.len() == 0 {
                responds_error(step, Status::NotFound, not_found_text(video_id@))
            } else {
                step matches SummaryStep::AskModel(prompt) && prompt@ == summary_prompt(
                    chunks@[0].video_title@,
                    transcript_of(chunks@),
                )
            },
        },
        (fetched is Ok && fetched->Ok_0@.len() > 0) ==> (step matches SummaryStep::AskModel(prompt)
            && prompt@.len() >= transcript_of(fetched->Ok_0@).len() && prompt@.skip(
            prompt@.len() - transcript_of(fetched->Ok_0@).len(),
        ) == transcript_of(fetched->Ok_0@)),
{
    match fetched {
        Err(e) => SummaryStep::Respond(Status::InternalServerError, SummaryBody::Error(e)),
        Ok(chunks) => {
            if chunks.len() == 0 {
                let (status, body) = not_found_reply(video_id);
                return SummaryStep::Respond(status, SummaryBody::Error(body.error));
            }
            let transcript = join_contents(&chunks);
            let mut prompt = String::from_str(
                "Summarize the following YouTube video transcript titled \"",
            );
            prompt.append(chunks[0].video_title.as_str());
            prompt.append(
                "\".\nWrite 3\u{2013}5 concise bullet points covering the main topics, key insights, and conclusions. Use \u{2022} for bullet points. Be specific.\n\nTranscript:\n",
            );
            prompt.append(transcript.as_str());
            SummaryStep::AskModel(prompt)
        },
    }
}

/// The message of a failed call to the language model.
pub open spec fn model_error_text(message: Seq<char>) -> Seq<char> {
    "OpenAI error: "@ + message
}

/// The message of a model reply without content.
pub open spec fn empty_answer_text() -> Seq<char> {
    "Empty response from OpenAI"@
}

/// Third step of the summary handler, on the model's reply: a request that
/// could not be built or a failed call is a 500, and so is an answer without
/// content; an answer is stored in the cache.
pub fn summary_from_model(reply: ModelReply) -> (step: SummaryStep)
    ensures
        match reply {
            ModelReply::RequestRejected(e) => responds_error(step, Status::InternalServerError, e@),
            ModelReply::CallFailed(e) => responds_error(
                step,
                Status::InternalServerError,
                model_error_text(e@),
            ),
            ModelReply::Answered(None) => responds_error(
                step,
                Status::InternalServerError,
                empty_answer_text(),
            ),
            ModelReply::Answered(Some(summary)) => step == SummaryStep::CacheSummary(summary),
        },
{
    match reply {
        ModelReply::RequestRejected(e) => SummaryStep::Respond(
            Status::InternalServerError,
            SummaryBody::Error(e),
        ),
        ModelReply::CallFailed(e) => {
            let mut message = String::from_str("OpenAI error: ");
            message.append(e.as_str());
            SummaryStep::Respond(Status::InternalServerError, SummaryBody::Error(message))
        },
        ModelReply::Answered(None) => SummaryStep::Respond(
            Status::InternalServerError,
            SummaryBody::Error(String::from_str("Empty response from OpenAI")),
        ),
        ModelReply::Answered(Some(summary)) => SummaryStep::CacheSummary(summary),
    }
}

/// Last step of the summary handler: the summary is answered whether or not
/// storing it in the cache succeeded.
pub fn summary_after_cache(summary: String, stored: Result<(), String>) -> (step: SummaryStep)
    ensures
        step == SummaryStep::Respond(Status::Success, SummaryBody::Summary(summary)),
{
    SummaryStep::Respond(Status::Success, SummaryBody::Summary(summary))
}

/// A lookup finds the media indexed exactly when it succeeded with at least
/// one chunk.
pub proof fn lemma_found_chunks(lookup: Result<Vec<StoredChunk>, String>)
    ensures
        found_chunks(lookup) <==> (lookup is Ok && lookup->Ok_0@.len() >= 1),
{
}

/// A listing of stored chunks has one entry per chunk, in order, each with the
/// chunk's content and its section title or the empty string, and counts
/// them all.
pub proof fn lemma_lists_every_chunk(d: MediaDetail, chunks: Seq<StoredChunk>, i: int)
    requires
        lists_chunks(d, chunks),
    ensures
        d.chunks@.len() == chunks.len(),
        d.chunk_count == chunks.len(),
        0 <= i < chunks.len() ==> d.chunks@[i].content@ == chunks[i].content@,
        0 <= i < chunks.len() && chunks[i].section_title is None ==> d.chunks@[i].title@
            == Seq::<char>::empty(),
        0 <= i < chunks.len() && chunks[i].section_title is Some ==> d.chunks@[i].title@
            == chunks[i].section_title->0@,
{
}

/// The transcript is the chunks' contents joined by single spaces: nothing for
/// no chunk, the content of a single chunk, and one more space and content for
/// each further chunk.
pub proof fn lemma_transcript_joins_contents(chunks: Seq<StoredChunk>, c: StoredChunk)
    ensures
        transcript_of(Seq::<StoredChunk>::empty()) == Seq::<char>::empty(),
        transcript_of(seq![c]) == c.content@,
        chunks.len() > 0 ==> transcript_of(chunks.push(c)) == transcript_of(chunks) + " "@
            + c.content@,
{
    assert(contents_of(Seq::<StoredChunk>::empty()) =~= Seq::<Seq<char>>::empty());
    assert(contents_of(seq![c]) =~= seq![c.content@]);
    let parts = contents_of(chunks.push(c));
    assert(parts =~= contents_of(chunks).push(c.content@));
    assert(parts.drop_last() =~= contents_of(chunks));
}

/// The transcript depends on the chunks' contents alone: two chunk lists with
/// the same contents in the same order give the same transcript, whatever
/// their titles.
pub proof fn lemma_transcript_ignores_titles(a: Seq<StoredChunk>, b: Seq<StoredChunk>)
    requires
        a.len() == b.len(),
        forall|i: int| 0 <= i < a.len() ==> (#[trigger] a[i]).content@ == b[i].content@,
    ensures
        transcript_of(a) == transcript_of(b),
{
    assert(contents_of(a) =~= contents_of(b));
}

/// The summary prompt is the fixed preamble, the title, the fixed
/// instructions and then the whole transcript, at any transcript length.
pub proof fn lemma_prompt_holds_whole_transcript(title: Seq<char>, transcript: Seq<char>)
    ensures
        ({
            let head = "Summarize the following YouTube video transcript titled \""@;
            let instructions = "\".\nWrite 3\u{2013}5 concise bullet points covering the main topics, key insights, and conclusions. Use \u{2022} for bullet points. Be specific.\n\nTranscript:\n"@;
            let p = summary_prompt(title, transcript);
            &&& p.len() == head.len() + title.len() + instructions.len() + transcript.len()
            &&& p.take(head.len() as int) == head
            &&& p.subrange(head.len() as int, (head.len() + title.len()) as int) == title
            &&& p.subrange(
                (head.len() + title.len()) as int,
                (head.len() + title.len() + instructions.len()) as int,
            )
                == instructions
            &&& p.skip(p.len() - transcript.len()) == transcript
        }),
{
    let head = "Summarize the following YouTube video transcript titled \""@;
    let instructions = "\".\nWrite 3\u{2013}5 concise bullet points covering the main topics, key insights, and conclusions. Use \u{2022} for bullet points. Be specific.\n\nTranscript:\n"@;
    let p = summary_prompt(title, transcript);
    assert(p == head + title + instructions + transcript);
    assert(p.take(head.len() as int) =~= head);
    assert(p.subrange(head.len() as int, (head.len() + title.len()) as int) =~= title);
    assert(p.subrange(
                (head.len() + title.len()) as int,
                (head.len() + title.len() + instructions.len()) as int,
            )
        =~= instructions);
    assert(p.skip(p.len() - transcript.len()) =~= transcript);
}

} // verus!
