//! From a message to a page: the steps between the arrival of a message of
//! an onboarded user and the reply that ends its handling.
//!
//! The work that needs the chat transport, the image host or the target
//! store is done by the caller. Each state names the outside work that is
//! due; the caller does it and hands the result back as an event, until the
//! state is `Finished` and holds the reply to send.

use vstd::prelude::*;
use crate::attachment::{
    attachment_candidates, candidates, Document, DocumentView, PhotoSize, PhotoSizeView,
};
use crate::constants::{
    CREATED_PAGE_PREFIX, DATABASE_NOT_FOUND_MSG, FAILURE_PREFIX, MISSING_FIELDS_PREFIX,
};
use crate::db::{UserDetails, UserDetailsView};
use crate::extract::{
    error_text, handle_text, regex_groups, text_outcome, ExtractError, TextElements,
    TextElementsView, LINK_PATTERN, TAG_PATTERN,
};
use crate::img_push::{file_url, source_url, upload_result, HostReply, HostReplyView, ImgPush};
use crate::notion::client::{
    find_database, has_expected_properties, lemma_absent_sources_are_omitted,
    lemma_absent_sources_attach_no_block, page_request, writes_property, Notion,
};
use crate::notion::model::{
    PageCreateRequest, PageCreateRequestView, TargetDatabase, TargetDatabaseView,
};
use crate::notion::new_page::{NewPage, NewPageView};
use crate::text::{debug_list, debug_rendering, remove_char, without_char};

verus! {

/// A message as the chat transport delivers it.
#[derive(Clone, Debug, PartialEq)]
pub struct Message {
    pub chat_id: String,
    pub text: Option<String>,
    pub caption: Option<String>,
    pub photo: Option<Vec<PhotoSize>>,
    pub document: Option<Document>,
}

pub struct MessageView {
    pub chat_id: Seq<char>,
    pub text: Option<Seq<char>>,
    pub caption: Option<Seq<char>>,
    pub photo: Option<Seq<PhotoSizeView>>,
    pub document: Option<DocumentView>,
}

impl DeepView for Message {
    type V = MessageView;

    open spec fn deep_view(&self) -> MessageView {
        MessageView {
            chat_id: self.chat_id@,
            text: self.text.deep_view(),
            caption: self.caption.deep_view(),
            photo: self.photo.deep_view(),
            document: self.document.deep_view(),
        }
    }
}

/// What the handling of one message carries along: whose message it is, the
/// bot's token under which the chat transport serves files, what the text
/// yielded, and the public URL of the first image that was uploaded.
#[derive(Clone, Debug, PartialEq)]
pub struct Job {
    pub credential: UserDetails,
    pub bot_token: String,
    pub elements: TextElements,
    pub image_url: Option<String>,
}

pub struct JobView {
    pub credential: UserDetailsView,
    pub bot_token: Seq<char>,
    pub elements: TextElementsView,
    pub image_url: Option<Seq<char>>,
}

impl DeepView for Job {
    type V = JobView;

    open spec fn deep_view(&self) -> JobView {
        JobView {
            credential: self.credential.deep_view(),
            bot_token: self.bot_token@,
            elements: self.elements.deep_view(),
            image_url: self.image_url.deep_view(),
        }
    }
}

/// How the handling of a message ended.
#[derive(Clone, Copy, Debug, PartialEq, Eq, Structural)]
pub enum Outcome {
    /// The page was created.
    Created,
    /// The database lacks a field that pages need; nothing was written.
    SchemaMismatch,
    /// The target store failed, or the message could not be read.
    Failed,
}

/// Where the handling of a message stands, and with that the outside work
/// that is due.
#[derive(Clone, Debug, PartialEq)]
pub enum Pipeline {
    /// Due: ask the chat transport for the path of the file `file_id`.
    Resolving { job: Job, file_id: String, pending: Vec<String> },
    /// Due: have the image host fetch `source_url`.
    Uploading { job: Job, source_url: String, pending: Vec<String> },
    /// Due: ask the target store, with the job's integration token, for the
    /// databases that it shares.
    Searching { job: Job },
    /// Due: have the target store create the page, with that token.
    Creating { integration_token: String, request: PageCreateRequest },
    /// Due: send `reply` to the chat, quoting the message where `quote` is
    /// set. Nothing follows.
    Finished { reply: String, quote: bool, outcome: Outcome },
}

pub enum PipelineView {
    Resolving { job: JobView, file_id: Seq<char>, pending: Seq<Seq<char>> },
    Uploading { job: JobView, source_url: Seq<char>, pending: Seq<Seq<char>> },
    Searching { job: JobView },
    Creating { integration_token: Seq<char>, request: PageCreateRequestView },
    Finished { reply: Seq<char>, quote: bool, outcome: Outcome },
}

impl DeepView for Pipeline {
    type V = PipelineView;

    open spec fn deep_view(&self) -> PipelineView {
        match self {
            Pipeline::Resolving { job, file_id, pending } => PipelineView::Resolving {
                job: job.deep_view(),
                file_id: file_id@,
                pending: pending.deep_view(),
            },
            Pipeline::Uploading { job, source_url, pending } => PipelineView::Uploading {
                job: job.deep_view(),
                source_url: source_url@,
                pending: pending.deep_view(),
            },
            Pipeline::Searching { job } => PipelineView::Searching { job: job.deep_view() },
            Pipeline::Creating { integration_token, request } => PipelineView::Creating {
                integration_token: integration_token@,
                request: request.deep_view(),
            },
            Pipeline::Finished { reply, quote, outcome } => PipelineView::Finished {
                reply: reply@,
                quote: *quote,
                outcome: *outcome,
            },
        }
    }
}

/// The result of outside work.
#[derive(Debug, PartialEq)]
pub enum Event {
    /// The chat transport gave the path of the file, or failed to.
    File { path: Option<String> },
    /// The image host answered.
    Upload { reply: HostReply },
    /// The target store listed its databases, or failed with that account.
    Databases { results: Result<Vec<TargetDatabase>, String> },
    /// The target store created the page and gave its id, or failed with
    /// that account.
    Page { id: Result<String, String> },
}

pub enum EventView {
    File { path: Option<Seq<char>> },
    Upload { reply: HostReplyView },
    Databases { results: Result<Seq<TargetDatabaseView>, Seq<char>> },
    Page { id: Result<Seq<char>, Seq<char>> },
}

impl DeepView for Event {
    type V = EventView;

    open spec fn deep_view(&self) -> EventView {
        match self {
            Event::File { path } => EventView::File { path: path.deep_view() },
            Event::Upload { reply } => EventView::Upload { reply: reply.deep_view() },
            Event::Databases { results } => EventView::Databases {
                results: match results {
                    Ok(databases) => Ok(databases.deep_view()),
                    Err(reason) => Err(reason@),
                },
            },
            Event::Page { id } => EventView::Page {
                id: match id {
                    Ok(page_id) => Ok(page_id@),
                    Err(reason) => Err(reason@),
                },
            },
        }
    }
}

/// The text of a message: its text and its caption, one directly after the
/// other.
pub open spec fn combined_text(text: Option<Seq<char>>, caption: Option<Seq<char>>) -> Seq<char> {
    (match text {
        Some(t) => t,
        None => Seq::empty(),
    }) + (match caption {
        Some(c) => c,
        None => Seq::empty(),
    })
}

/// The end of a handling that did not lead to a page.
pub open spec fn failure(reason: Seq<char>) -> PipelineView {
    PipelineView::Finished {
        reply: FAILURE_PREFIX@ + reason,
        quote: false,
        outcome: Outcome::Failed,
    }
}

/// With attachments left to try, the first is resolved next; with none
/// left, the database is looked up.
pub open spec fn enrich(job: JobView, pending: Seq<Seq<char>>) -> PipelineView {
    if pending.len() == 0 {
        PipelineView::Searching { job: job }
    } else {
        PipelineView::Resolving { job: job, file_id: pending[0], pending: pending.drop_first() }
    }
}

/// The job once an upload has succeeded: the first image stays.
pub open spec fn with_image(job: JobView, url: Seq<char>) -> JobView {
    JobView {
        image_url: match job.image_url {
            Some(first) => Some(first),
            None => Some(url),
        },
        ..job
    }
}

/// Where the handling of a message starts, given what its text yielded:
/// with the first attachment where it has one to upload.
pub open spec fn begin(
    message: MessageView,
    credential: UserDetailsView,
    bot_token: Seq<char>,
    extracted: Result<TextElementsView, ExtractError>,
) -> PipelineView {
    match extracted {
        Ok(elements) => enrich(
            JobView {
                credential: credential,
                bot_token: bot_token,
                elements: elements,
                image_url: None,
            },
            attachment_candidates(message.photo, message.document),
        ),
        Err(error) => failure(error_text(error)),
    }
}

/// The names of the database's fields, in the order listed.
pub open spec fn property_names(database: TargetDatabaseView) -> Seq<Seq<char>> {
    Seq::new(database.properties.len(), |i: int| database.properties[i].name)
}

/// What the user is told of a database that lacks a required field: which
/// fields are required, and the fields found as `shown`.
pub open spec fn missing_fields_report(shown: Seq<char>) -> Seq<char> {
    FAILURE_PREFIX@ + MISSING_FIELDS_PREFIX@ + shown
}

/// The report on a database that lacks a required field: the names of the
/// fields it has are shown as a list of quoted strings.
pub open spec fn schema_report(database: TargetDatabaseView) -> Seq<char> {
    missing_fields_report(debug_rendering(property_names(database)))
}

/// What the text of `message` yields.
pub open spec fn text_read(message: MessageView) -> Result<TextElementsView, ExtractError> {
    let text = combined_text(message.text, message.caption);
    text_outcome(text, regex_groups(LINK_PATTERN@, 1, text), regex_groups(TAG_PATTERN@, 1, text))
}

/// The page that a job asks for in `database`.
pub open spec fn page_of(job: JobView, database: TargetDatabaseView) -> NewPageView {
    NewPageView {
        database: database,
        name: job.elements.title,
        url: job.elements.url,
        image_url: job.image_url,
        tags: job.elements.tags,
    }
}

/// What follows the search: the page's creation where the user's database
/// is among the results and has the required fields; else the end.
pub open spec fn after_search(
    job: JobView,
    results: Result<Seq<TargetDatabaseView>, Seq<char>>,
) -> PipelineView {
    match results {
        Err(reason) => failure(reason),
        Ok(databases) => match find_database(databases, job.credential.database_id) {
            None => failure(DATABASE_NOT_FOUND_MSG@),
            Some(database) => if has_expected_properties(database) {
                PipelineView::Creating {
                    integration_token: job.credential.integration_token,
                    request: page_request(page_of(job, database)),
                }
            } else {
                PipelineView::Finished {
                    reply: schema_report(database),
                    quote: false,
                    outcome: Outcome::SchemaMismatch,
                }
            },
        },
    }
}

/// The link under which a created page is found: its id without hyphens
/// behind the store's address.
pub open spec fn created_reply(page_id: Seq<char>) -> Seq<char> {
    CREATED_PAGE_PREFIX@ + without_char(page_id, '-')
}

/// One step: the state that follows `state` on `event`. An attachment that
/// cannot be resolved or uploaded is passed over. An event that does not
/// answer the work due leaves the state as it is.
pub open spec fn step(state: PipelineView, event: EventView, base_url: Seq<char>) -> PipelineView {
    match state {
        PipelineView::Resolving { job, file_id, pending } => match event {
            EventView::File { path: Some(found) } => PipelineView::Uploading {
                job: job,
                source_url: file_url(job.bot_token, found),
                pending: pending,
            },
            EventView::File { path: None } => enrich(job, pending),
            _ => state,
        },
        PipelineView::Uploading { job, source_url, pending } => match event {
            EventView::Upload { reply } => match upload_result(base_url, reply) {
                Ok(url) => enrich(with_image(job, url), pending),
                Err(_) => enrich(job, pending),
            },
            _ => state,
        },
        PipelineView::Searching { job } => match event {
            EventView::Databases { results } => after_search(job, results),
            _ => state,
        },
        PipelineView::Creating { integration_token, request } => match event {
            EventView::Page { id: Ok(page_id) } => PipelineView::Finished {
                reply: created_reply(page_id),
                quote: true,
                outcome: Outcome::Created,
            },
            EventView::Page { id: Err(reason) } => failure(reason),
            _ => state,
        },
        PipelineView::Finished { .. } => state,
    }
}

/// How much outside work a state may still ask for.
pub open spec fn work_left(state: PipelineView) -> nat {
    match state {
        PipelineView::Resolving { pending, .. } => 2 * pending.len() + 4,
        PipelineView::Uploading { pending, .. } => 2 * pending.len() + 3,
        PipelineView::Searching { .. } => 2,
        PipelineView::Creating { .. } => 1,
        PipelineView::Finished { .. } => 0,
    }
}

/// Nothing is tried twice: a step either leaves the state as it is, when
/// the event does not answer the work due, or leaves less work to do.
pub proof fn lemma_step_makes_progress(state: PipelineView, event: EventView, base_url: Seq<char>)
    ensures
        step(state, event, base_url) == state || work_left(step(state, event, base_url))
            < work_left(state),
{
}

/// An attachment that the chat transport cannot resolve, or that the image
/// host does not take, changes nothing but the list of attachments left:
/// the job goes on as it was.
pub proof fn lemma_failed_upload_is_passed_over(
    job: JobView,
    file_id: Seq<char>,
    source_url: Seq<char>,
    pending: Seq<Seq<char>>,
    reply: HostReplyView,
    base_url: Seq<char>,
)
    requires
        upload_result(base_url, reply) is Err,
    ensures
        step(
            PipelineView::Resolving { job: job, file_id: file_id, pending: pending },
            EventView::File { path: None },
            base_url,
        ) == enrich(job, pending),
        step(
            PipelineView::Uploading { job: job, source_url: source_url, pending: pending },
            EventView::Upload { reply: reply },
            base_url,
        ) == enrich(job, pending),
{
}

/// Of several uploads that succeed, the first gives the page its image.
pub proof fn lemma_first_image_is_kept(job: JobView, first: Seq<char>, second: Seq<char>)
    requires
        job.image_url is None,
    ensures
        with_image(with_image(job, first), second).image_url == Some(first),
{
}

/// A job without an image asks for a page without an `Image` property and
/// without an image block, whatever the database.
pub proof fn lemma_no_image_no_image_property(job: JobView, database: TargetDatabaseView)
    requires
        job.image_url is None,
    ensures
        !writes_property(page_request(page_of(job, database)), "Image"@),
        forall|i: int|
            0 <= i < page_request(page_of(job, database)).children->0.len() ==> !(
            #[trigger] page_request(page_of(job, database)).children->0[i] is Image),
{
    lemma_absent_sources_are_omitted(page_of(job, database));
    lemma_absent_sources_attach_no_block(page_of(job, database));
}

/// Where the one attachment of a message fails to upload, the page is asked
/// for without an `Image` property: the property is absent, not empty.
pub proof fn lemma_failed_only_upload_omits_image(
    job: JobView,
    file_id: Seq<char>,
    path: Option<Seq<char>>,
    reply: HostReplyView,
    results: Seq<TargetDatabaseView>,
    base_url: Seq<char>,
)
    requires
        job.image_url is None,
        upload_result(base_url, reply) is Err,
    ensures
        ({
            let resolving = PipelineView::Resolving {
                job: job,
                file_id: file_id,
                pending: Seq::empty(),
            };
            let resolved = step(resolving, EventView::File { path: path }, base_url);
            let tried = step(resolved, EventView::Upload { reply: reply }, base_url);
            let searched = step(tried, EventView::Databases { results: Ok(results) }, base_url);
            &&& tried == PipelineView::Searching { job: job }
            &&& searched matches PipelineView::Creating { request, .. } ==> !writes_property(
                request,
                "Image"@,
            )
        }),
{
    match find_database(results, job.credential.database_id) {
        Some(database) => {
            lemma_no_image_no_image_property(job, database);
        },
        None => {},
    }
}

/// A page is asked for only in a database that was found and has all four
/// required fields. A database that lacks one ends the handling with a
/// report of the fields it has; the store is not asked to create anything.
pub proof fn lemma_schema_mismatch_aborts(job: JobView, results: Seq<TargetDatabaseView>)
    ensures
        match find_database(results, job.credential.database_id) {
            Some(database) => if has_expected_properties(database) {
                after_search(job, Ok(results)) is Creating
            } else {
                after_search(job, Ok(results)) == (PipelineView::Finished {
                    reply: schema_report(database),
                    quote: false,
                    outcome: Outcome::SchemaMismatch,
                })
            },
            None => after_search(job, Ok(results)) == failure(DATABASE_NOT_FOUND_MSG@),
        },
{
}

fn fail(reason: &str) -> (state: Pipeline)
    ensures
        state.deep_view() == failure(reason@),
{
    Pipeline::Finished {
        reply: String::from_str(FAILURE_PREFIX).concat(reason),
        quote: false,
        outcome: Outcome::Failed,
    }
}

fn next_attachment(job: Job, pending: Vec<String>) -> (state: Pipeline)
    ensures
        state.deep_view() == enrich(job.deep_view(), pending.deep_view()),
{
    let mut pending = pending;
    if pending.len() == 0 {
        Pipeline::Searching { job }
    } else {
        let ghost before = pending.deep_view();
        let file_id = pending.remove(0);
        assert(pending.deep_view() =~= before.drop_first());
        assert(file_id@ == before[0]);
        Pipeline::Resolving { job, file_id, pending }
    }
}

fn names_of(database: &TargetDatabase) -> (names: Vec<String>)
    ensures
        names.deep_view() == property_names(database.deep_view()),
{
    let mut names: Vec<String> = Vec::new();
    let mut i: usize = 0;
    while i < database.properties.len()
        invariant
            i <= database.properties.len(),
            names.deep_view() =~= property_names(database.deep_view()).take(i as int),
        decreases database.properties.len() - i,
    {
        let ghost before = names.deep_view();
        names.push(database.properties[i].name.clone());
        assert(names.deep_view() =~= before.push(database.properties[i as int].name@));
        i += 1;
    }
    assert(names.deep_view() =~= property_names(database.deep_view()));
    names
}

/// Tells the user that the database lacks a required field. `shown` is the
/// list of the fields that it has.
pub fn missing_fields_reply(shown: &str) -> (reply: String)
    ensures
        reply@ == missing_fields_report(shown@),
{
    String::from_str(FAILURE_PREFIX).concat(MISSING_FIELDS_PREFIX).concat(shown)
}

/// The text of a message: its text and its caption, one directly after the
/// other.
pub fn text_of(message: &Message) -> (text: String)
    ensures
        text@ == combined_text(message.text.deep_view(), message.caption.deep_view()),
{
    let text = match &message.text {
        Some(t) => t.clone(),
        None => String::new(),
    };
    match &message.caption {
        Some(c) => text.concat(c.as_str()),
        None => {
            assert(text@ + Seq::<char>::empty() =~= text@);
            text
        },
    }
}

/// Starts the handling of a message whose text has been read already.
pub fn start_with(
    message: Message,
    credential: UserDetails,
    bot_token: String,
    extracted: Result<TextElements, ExtractError>,
) -> (state: Pipeline)
    ensures
        state.deep_view() == begin(
            message.deep_view(),
            credential.deep_view(),
            bot_token@,
            match extracted {
                Ok(elements) => Ok(elements.deep_view()),
                Err(error) => Err(error),
            },
        ),
{
    match extracted {
        Ok(elements) => {
            let photo: Option<&[PhotoSize]> = match &message.photo {
                Some(sizes) => Some(sizes.as_slice()),
                None => None,
            };
            let pending = candidates(photo, message.document.as_ref());
            next_attachment(Job { credential, bot_token, elements, image_url: None }, pending)
        },
        Err(error) => fail(error.message().as_str()),
    }
}

/// Starts the handling of a message of an onboarded user: reads its text
/// and picks the attachments to upload.
pub fn start(message: Message, credential: UserDetails, bot_token: String) -> (state: Pipeline)
    ensures
        state.deep_view() == begin(
            message.deep_view(),
            credential.deep_view(),
            bot_token@,
            text_read(message.deep_view()),
        ),
{
    let extracted = handle_text(text_of(&message));
    start_with(message, credential, bot_token, extracted)
}

fn search_done(job: Job, results: Result<Vec<TargetDatabase>, String>) -> (state: Pipeline)
    ensures
        state.deep_view() == after_search(
            job.deep_view(),
            match results {
                Ok(databases) => Ok(databases.deep_view()),
                Err(reason) => Err(reason@),
            },
        ),
{
    match results {
        Err(reason) => fail(reason.as_str()),
        Ok(databases) => {
            let notion = Notion::new(job.credential.integration_token);
            match notion.get_database_by_id(databases, job.credential.database_id) {
                Err(error) => fail(error.message().as_str()),
                Ok(database) => {
                    if Notion::has_expected_database_properties(&database) {
                        let new_page = NewPage {
                            database,
                            name: job.elements.title,
                            url: job.elements.url,
                            image_url: job.image_url,
                            tags: job.elements.tags,
                        };
                        let request = notion.create_page(new_page);
                        Pipeline::Creating { integration_token: notion.api_token, request }
                    } else {
                        let shown = debug_list(&names_of(&database));
                        Pipeline::Finished {
                            reply: missing_fields_reply(shown.as_str()),
                            quote: false,
                            outcome: Outcome::SchemaMismatch,
                        }
                    }
                },
            }
        },
    }
}

/// Makes one step in the handling of a message: takes the result of the
/// outside work that was due and says what is due next.
pub fn message_handler(state: Pipeline, event: Event, img_push: &ImgPush) -> (next: Pipeline)
    ensures
        next.deep_view() == step(state.deep_view(), event.deep_view(), img_push.base_url()),
{
    match state {
        Pipeline::Resolving { job, file_id, pending } => match event {
            Event::File { path: Some(found) } => {
                let source = source_url(job.bot_token.as_str(), found.as_str());
                Pipeline::Uploading { job, source_url: source, pending }
            },
            Event::File { path: None } => next_attachment(job, pending),
            _ => Pipeline::Resolving { job, file_id, pending },
        },
        Pipeline::Uploading { job, source_url, pending } => match event {
            Event::Upload { reply } => match img_push.upload(reply) {
                Ok(url) => {
                    let image_url = match job.image_url {
                        Some(first) => Some(first),
                        None => Some(url),
                    };
                    next_attachment(
                        Job {
                            credential: job.credential,
                            bot_token: job.bot_token,
                            elements: job.elements,
                            image_url,
                        },
                        pending,
                    )
                },
                Err(_) => next_attachment(job, pending),
            },
            _ => Pipeline::Uploading { job, source_url, pending },
        },
        Pipeline::Searching { job } => match event {
            Event::Databases { results } => search_done(job, results),
            _ => Pipeline::Searching { job },
        },
        Pipeline::Creating { integration_token, request } => match event {
            Event::Page { id: Ok(page_id) } => Pipeline::Finished {
                reply: String::from_str(CREATED_PAGE_PREFIX).concat(
                    remove_char(page_id.as_str(), '-').as_str(),
                ),
                quote: true,
                outcome: Outcome::Created,
            },
            Event::Page { id: Err(reason) } => fail(reason.as_str()),
            _ => Pipeline::Creating { integration_token, request },
        },
        Pipeline::Finished { reply, quote, outcome } => Pipeline::Finished {
            reply,
            quote,
            outcome,
        },
    }
}

} // verus!
