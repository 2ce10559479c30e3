//! The upload coordinator: batch options are resolved once, one
//! ticket call covers the whole batch, and each file then runs its
//! own task — transfer, then (when asked to wait) completion
//! polling. A failing task is excluded from the result list and
//! leaves its siblings alone; a failing ticket call aborts the whole
//! batch before any transfer is attempted.
//!
//! The coordinator's decisions are pure functions of what the
//! environment answered, so a whole batch can be run over a script
//! of answers and its laws proved once and for all.

use vstd::prelude::*;

use crate::backoff::MAX_RETRIES;
use crate::errors::BatchTicketError;
use crate::errors::TaskFailure;
use crate::files::FileDescriptor;
use crate::models::Acl;
use crate::models::ContentDisposition;
use crate::models::FileUpload;
use crate::models::UploadFileOpts;
use crate::models::UploadFileResponseData;
use crate::poll::PollCycle;
use crate::poll::PollEnd;
use crate::poll::lemma_poll_attempts_bounded;
use crate::poll::lemma_poll_terminates;
use crate::poll::run_poll;
use crate::poll::spec_poll;
use crate::request::spec_is_success;
use crate::request::status_is_success;
use crate::transfer::build_form_fields;
use crate::transfer::classify_transfer_response;
use crate::transfer::make_upload_result;
use crate::transfer::spec_fields_all_text;

verus! {

/// The label the service expects for a content disposition.
pub open spec fn spec_content_disposition_label(cd: ContentDisposition) -> Seq<char> {
    match cd {
        ContentDisposition::Inline => "inline"@,
        ContentDisposition::Attachment => "attachment"@,
    }
}

/// The label the service expects for a visibility selector.
pub open spec fn spec_acl_label(acl: Acl) -> Seq<char> {
    match acl {
        Acl::Private => "private"@,
        Acl::PublicRead => "public-read"@,
    }
}

/// The content disposition a batch runs with: the chosen one, or
/// inline when none was chosen.
pub open spec fn spec_effective_content_disposition(opts: Option<UploadFileOpts>)
    -> ContentDisposition {
    match opts {
        Some(o) => match o.content_disposition {
            Some(cd) => cd,
            None => ContentDisposition::Inline,
        },
        None => ContentDisposition::Inline,
    }
}

/// The visibility a batch runs with: the chosen one, or public-read
/// when none was chosen.
pub open spec fn spec_effective_acl(opts: Option<UploadFileOpts>) -> Acl {
    match opts {
        Some(o) => match o.acl {
            Some(a) => a,
            None => Acl::PublicRead,
        },
        None => Acl::PublicRead,
    }
}

/// The metadata a batch runs with: the given mapping, or an empty
/// one.
pub open spec fn spec_effective_metadata(opts: Option<UploadFileOpts>) -> Seq<(String, String)> {
    match opts {
        Some(o) => match o.metadata {
            Some(m) => m@,
            None => Seq::empty(),
        },
        None => Seq::empty(),
    }
}

/// Batch options resolved to what the ticket request carries: the
/// metadata mapping and the service's labels for content disposition
/// and visibility.
#[derive(Clone, Debug)]
pub struct ResolvedUploadOpts {
    /// Shared metadata, empty when none was given.
    pub metadata: Vec<(String, String)>,
    /// `"inline"` or `"attachment"`.
    pub content_disposition: String,
    /// `"private"` or `"public-read"`.
    pub acl: String,
}

/// The service's label for a content disposition selector.
pub fn content_disposition_label(cd: &ContentDisposition) -> (s: String)
    ensures
        s@ == spec_content_disposition_label(*cd),
{
    match cd {
        ContentDisposition::Inline => "inline".to_owned(),
        ContentDisposition::Attachment => "attachment".to_owned(),
    }
}

/// The service's label for a visibility selector.
pub fn acl_label(acl: &Acl) -> (s: String)
    ensures
        s@ == spec_acl_label(*acl),
{
    match acl {
        Acl::Private => "private".to_owned(),
        Acl::PublicRead => "public-read".to_owned(),
    }
}

/// Resolves batch options to what the ticket request carries:
/// missing metadata becomes the empty mapping, a missing disposition
/// becomes inline, and missing visibility becomes public-read.
pub fn resolve_opts(opts: Option<UploadFileOpts>) -> (r: ResolvedUploadOpts)
    ensures
        r.metadata@ == spec_effective_metadata(opts),
        r.content_disposition@ == spec_content_disposition_label(
            spec_effective_content_disposition(opts),
        ),
        r.acl@ == spec_acl_label(spec_effective_acl(opts)),
{
    match opts {
        None => ResolvedUploadOpts {
            metadata: Vec::new(),
            content_disposition: "inline".to_owned(),
            acl: "public-read".to_owned(),
        },
        Some(o) => {
            let metadata = match o.metadata {
                Some(m) => m,
                None => Vec::new(),
            };
            let content_disposition = match &o.content_disposition {
                Some(cd) => content_disposition_label(cd),
                None => "inline".to_owned(),
            };
            let acl = match &o.acl {
                Some(a) => acl_label(a),
                None => "public-read".to_owned(),
            };
            ResolvedUploadOpts { metadata, content_disposition, acl }
        },
    }
}

/// The service's answer to the single ticket call, as the transport
/// hands it back: the HTTP status, the response body kept for
/// diagnostics, and the ticket list parsed from the body — `None`
/// when the body did not decode to a ticket list.
#[derive(Clone, Debug)]
pub struct TicketReply {
    /// The HTTP status of the ticket call.
    pub status: u16,
    /// The response body, as diagnostic text.
    pub body: String,
    /// The tickets parsed from the body, if it decoded.
    pub tickets: Option<Vec<UploadFileResponseData>>,
}

/// Reads the ticket reply for a batch of `expected` files. The batch
/// may proceed only on a 2xx answer that decoded to exactly one
/// ticket per file, in request order; anything else aborts the whole
/// batch with a diagnostic, before any transfer.
pub fn accept_tickets(reply: TicketReply, expected: usize) -> (r: Result<
    Vec<UploadFileResponseData>,
    BatchTicketError,
>)
    ensures
        r is Ok <==> (spec_is_success(reply.status) && (reply.tickets matches Some(t)
            && t@.len() == expected)),
        r matches Ok(t) ==> reply.tickets == Some(t),
        !spec_is_success(reply.status) ==> (r matches Err(e) && e.message == reply.body),
        spec_is_success(reply.status) && reply.tickets is None ==> (r matches Err(e)
            && e.message@ == "ticket response could not be decoded"@),
        spec_is_success(reply.status) ==> ((reply.tickets matches Some(t) && t@.len()
            != expected) ==> (r matches Err(e) && e.message@
            == "ticket count does not match request count"@)),
{
    if !status_is_success(reply.status) {
        return Err(BatchTicketError { message: reply.body });
    }
    match reply.tickets {
        Some(t) => {
            if t.len() == expected {
                Ok(t)
            } else {
                Err(
                    BatchTicketError {
                        message: "ticket count does not match request count".to_owned(),
                    },
                )
            }
        },
        None => Err(BatchTicketError { message: "ticket response could not be decoded".to_owned() }),
    }
}

/// What the environment answered for one file's transfer.
#[derive(Clone, Debug)]
pub enum TransferReply {
    /// The destination answered with this status and body.
    Response(u16, String),
    /// The send itself failed; carries the transport's diagnostic.
    TransportFailure(String),
    /// The cancellation signal won the race against the send.
    Cancelled,
}

/// Everything the environment answered for one file's task: the
/// transfer's outcome, then the poll cycles consumed when the task
/// goes on to wait for completion.
#[derive(Clone, Debug)]
pub struct TaskScript {
    /// The transfer's outcome.
    pub transfer: TransferReply,
    /// The poll answers, consulted only when the batch waits for
    /// completion.
    pub poll: Vec<PollCycle>,
}

/// Whether a task's transfer goes through: the ticket's form fields
/// are all text (else it is rejected before the send) and the
/// destination answers 2xx.
pub open spec fn spec_transfer_ok(ticket: UploadFileResponseData, script: TaskScript) -> bool {
    &&& spec_fields_all_text(ticket.fields@)
    &&& script.transfer matches TransferReply::Response(s, _) && spec_is_success(s)
}

/// Whether a task produces a result: its transfer goes through and,
/// when the batch waits for completion, the poll loop confirms it.
pub open spec fn spec_task_succeeds(
    ticket: UploadFileResponseData,
    wait: bool,
    script: TaskScript,
) -> bool {
    &&& spec_transfer_ok(ticket, script)
    &&& (wait ==> spec_poll(script.poll@, 0).0 == Some(PollEnd::Confirmed))
}

/// How many poll probes a task consumes: the probes of its poll loop
/// when it transfers successfully and waits, and none otherwise.
pub open spec fn spec_task_poll_attempts(
    ticket: UploadFileResponseData,
    wait: bool,
    script: TaskScript,
) -> nat {
    if wait && spec_transfer_ok(ticket, script) {
        spec_poll(script.poll@, 0).1
    } else {
        0
    }
}

/// The result record a successful task contributes: its ticket's key
/// and public URL with its own file's name and size.
pub open spec fn spec_upload_of(desc: FileDescriptor, ticket: UploadFileResponseData)
    -> FileUpload {
    FileUpload { key: ticket.key, url: ticket.file_url, name: desc.name, size: desc.size }
}

/// What one task's run reports.
#[derive(Debug)]
pub struct TaskRun {
    /// The task's result, or why it contributes none.
    pub outcome: Result<FileUpload, TaskFailure>,
    /// Whether a send was actually started (the form validated).
    pub transfer_attempted: bool,
    /// How many poll probes the task consumed.
    pub poll_attempts: usize,
}

/// Runs one file's task over the environment's answers: the form is
/// validated and sent, the destination's answer read, and — when the
/// batch waits for completion — the poll loop run to its ending. The
/// poll script must cover the retry budget, so that the loop always
/// reaches an ending.
pub fn run_task(
    desc: &FileDescriptor,
    ticket: &UploadFileResponseData,
    wait: bool,
    script: &TaskScript,
) -> (r: TaskRun)
    requires
        wait ==> script.poll@.len() > MAX_RETRIES,
    ensures
        r.outcome is Ok <==> spec_task_succeeds(*ticket, wait, *script),
        r.outcome matches Ok(u) ==> u == spec_upload_of(*desc, *ticket),
        r.transfer_attempted == spec_fields_all_text(ticket.fields@),
        r.poll_attempts == spec_task_poll_attempts(*ticket, wait, *script),
        r.poll_attempts <= MAX_RETRIES + 1,
        !spec_fields_all_text(ticket.fields@) ==> (r.outcome matches Err(
            TaskFailure::Transfer(m),
        ) && m@ == "ticket form field value is not a string"@),
        spec_fields_all_text(ticket.fields@) ==> (script.transfer
            matches TransferReply::Cancelled ==> r.outcome == Err::<FileUpload, TaskFailure>(
            TaskFailure::Cancelled,
        )),
        spec_fields_all_text(ticket.fields@) ==> (script.transfer
            matches TransferReply::TransportFailure(d) ==> r.outcome == Err::<
            FileUpload,
            TaskFailure,
        >(TaskFailure::Transfer(d))),
        spec_fields_all_text(ticket.fields@) ==> (script.transfer
            matches TransferReply::Response(s, b) ==> (!spec_is_success(s) ==> r.outcome == Err::<
            FileUpload,
            TaskFailure,
        >(TaskFailure::Transfer(b)))),
        spec_transfer_ok(*ticket, *script) && wait ==> {
            &&& spec_poll(script.poll@, 0).0 == Some(PollEnd::Incomplete) ==> r.outcome == Err::<
                FileUpload,
                TaskFailure,
            >(TaskFailure::Incomplete)
            &&& spec_poll(script.poll@, 0).0 == Some(PollEnd::Cancelled) ==> r.outcome == Err::<
                FileUpload,
                TaskFailure,
            >(TaskFailure::Cancelled)
        },
{
    let form = build_form_fields(&ticket.fields);
    if let Err(m) = form {
        return TaskRun { outcome: Err(TaskFailure::Transfer(m)), transfer_attempted: false, poll_attempts: 0 };
    }
    match &script.transfer {
        TransferReply::Cancelled => {
            return TaskRun { outcome: Err(TaskFailure::Cancelled), transfer_attempted: true, poll_attempts: 0 };
        },
        TransferReply::TransportFailure(d) => {
            return TaskRun { outcome: Err(TaskFailure::Transfer(d.clone())), transfer_attempted: true, poll_attempts: 0 };
        },
        TransferReply::Response(s, b) => {
            if let Err(f) = classify_transfer_response(*s, b.clone()) {
                return TaskRun { outcome: Err(f), transfer_attempted: true, poll_attempts: 0 };
            }
        },
    }
    if !wait {
        return TaskRun { outcome: Ok(make_upload_result(desc, ticket)), transfer_attempted: true, poll_attempts: 0 };
    }
    proof {
        lemma_poll_terminates(script.poll@, 0);
        lemma_poll_attempts_bounded(script.poll@, 0);
    }
    let run = run_poll(&script.poll);
    match run.end {
        Some(PollEnd::Confirmed) => TaskRun {
            outcome: Ok(make_upload_result(desc, ticket)),
            transfer_attempted: true,
            poll_attempts: run.attempts,
        },
        Some(PollEnd::Incomplete) => TaskRun {
            outcome: Err(TaskFailure::Incomplete),
            transfer_attempted: true,
            poll_attempts: run.attempts,
        },
        Some(PollEnd::Cancelled) => TaskRun {
            outcome: Err(TaskFailure::Cancelled),
            transfer_attempted: true,
            poll_attempts: run.attempts,
        },
        None => {
            proof {
                assert(false);
            }
            TaskRun { outcome: Err(TaskFailure::Incomplete), transfer_attempted: true, poll_attempts: 0 }
        },
    }
}

/// The results of a batch, in request order: each successful task
/// contributes its record, each failing task contributes nothing.
pub open spec fn spec_batch_results(
    descs: Seq<FileDescriptor>,
    tickets: Seq<UploadFileResponseData>,
    wait: bool,
    scripts: Seq<TaskScript>,
) -> Seq<FileUpload>
    decreases descs.len(),
{
    if descs.len() == 0 || tickets.len() == 0 || scripts.len() == 0 {
        Seq::empty()
    } else {
        let head = if spec_task_succeeds(tickets[0], wait, scripts[0]) {
            seq![spec_upload_of(descs[0], tickets[0])]
        } else {
            Seq::empty()
        };
        head + spec_batch_results(
            descs.drop_first(),
            tickets.drop_first(),
            wait,
            scripts.drop_first(),
        )
    }
}

/// How many transfers a batch starts: one per task whose ticket's
/// form fields validate.
pub open spec fn spec_batch_transfers(tickets: Seq<UploadFileResponseData>) -> nat
    decreases tickets.len(),
{
    if tickets.len() == 0 {
        0
    } else {
        (if spec_fields_all_text(tickets[0].fields@) {
            1nat
        } else {
            0nat
        }) + spec_batch_transfers(tickets.drop_first())
    }
}

/// How many poll probes a batch consumes, over all its tasks.
pub open spec fn spec_batch_poll_attempts(
    tickets: Seq<UploadFileResponseData>,
    wait: bool,
    scripts: Seq<TaskScript>,
) -> nat
    decreases tickets.len(),
{
    if tickets.len() == 0 || scripts.len() == 0 {
        0
    } else {
        spec_task_poll_attempts(tickets[0], wait, scripts[0]) + spec_batch_poll_attempts(
            tickets.drop_first(),
            wait,
            scripts.drop_first(),
        )
    }
}

/// A batch that does not wait for completion polls nobody.
pub proof fn lemma_no_wait_no_polls(tickets: Seq<UploadFileResponseData>, scripts: Seq<TaskScript>)
    ensures
        spec_batch_poll_attempts(tickets, false, scripts) == 0,
    decreases tickets.len(),
{
    if tickets.len() > 0 && scripts.len() > 0 {
        lemma_no_wait_no_polls(tickets.drop_first(), scripts.drop_first());
    }
}

/// What one batch's run reports.
#[derive(Debug)]
pub struct BatchRun {
    /// The batch's outcome: the results of every successful task, or
    /// the error that aborted the whole batch before any transfer.
    pub outcome: Result<Vec<FileUpload>, BatchTicketError>,
    /// How many transfers were started.
    pub transfers_attempted: usize,
    /// How many poll probes were consumed, over all tasks.
    pub poll_attempts: usize,
}

/// Runs a whole batch over the environment's answers: the ticket
/// reply is read once, and on success each file runs its own task;
/// a failing task is excluded from the results without touching its
/// siblings, and a failing ticket call aborts the batch with zero
/// transfers attempted and zero poll probes consumed.
pub fn run_batch(
    descs: &Vec<FileDescriptor>,
    wait: bool,
    reply: TicketReply,
    scripts: &Vec<TaskScript>,
) -> (r: BatchRun)
    requires
        scripts@.len() == descs@.len(),
        wait ==> forall|i: int|
            0 <= i < scripts@.len() ==> (#[trigger] scripts@[i]).poll@.len() > MAX_RETRIES,
        (MAX_RETRIES + 1) * descs@.len() <= usize::MAX,
    ensures
        r.outcome is Ok <==> (spec_is_success(reply.status) && (reply.tickets matches Some(t)
            && t@.len() == descs@.len())),
        !spec_is_success(reply.status) ==> (r.outcome matches Err(e) && e.message == reply.body),
        r.outcome is Err ==> r.transfers_attempted == 0 && r.poll_attempts == 0,
        r.outcome matches Ok(results) ==> (reply.tickets matches Some(tickets) && {
            &&& results@ == spec_batch_results(descs@, tickets@, wait, scripts@)
            &&& r.transfers_attempted == spec_batch_transfers(tickets@)
            &&& r.poll_attempts == spec_batch_poll_attempts(tickets@, wait, scripts@)
        }),
        !wait ==> r.poll_attempts == 0,
{
    let n = descs.len();
    let tickets = match accept_tickets(reply, n) {
        Ok(t) => t,
        Err(e) => {
            return BatchRun { outcome: Err(e), transfers_attempted: 0, poll_attempts: 0 };
        },
    };
    let ghost gt = tickets@;
    let mut results: Vec<FileUpload> = Vec::new();
    let mut transfers: usize = 0;
    let mut polls: usize = 0;
    let mut i: usize = 0;
    proof {
        assert(descs@.skip(0) =~= descs@);
        assert(gt.skip(0) =~= gt);
        assert(scripts@.skip(0) =~= scripts@);
        assert(results@ + spec_batch_results(descs@, gt, wait, scripts@) =~= spec_batch_results(
            descs@,
            gt,
            wait,
            scripts@,
        ));
    }
    while i < n
        invariant
            n == descs@.len(),
            gt == tickets@,
            gt.len() == n,
            scripts@.len() == n,
            wait ==> forall|k: int|
                0 <= k < scripts@.len() ==> (#[trigger] scripts@[k]).poll@.len() > MAX_RETRIES,
            (MAX_RETRIES + 1) * n <= usize::MAX,
            i <= n,
            transfers <= i,
            polls <= (MAX_RETRIES + 1) * i,
            spec_batch_results(descs@, gt, wait, scripts@) == results@ + spec_batch_results(
                descs@.skip(i as int),
                gt.skip(i as int),
                wait,
                scripts@.skip(i as int),
            ),
            spec_batch_transfers(gt) == transfers + spec_batch_transfers(gt.skip(i as int)),
            spec_batch_poll_attempts(gt, wait, scripts@) == polls + spec_batch_poll_attempts(
                gt.skip(i as int),
                wait,
                scripts@.skip(i as int),
            ),
        decreases n - i,
    {
        proof {
            assert(descs@.skip(i as int).drop_first() =~= descs@.skip(i as int + 1));
            assert(gt.skip(i as int).drop_first() =~= gt.skip(i as int + 1));
            assert(scripts@.skip(i as int).drop_first() =~= scripts@.skip(i as int + 1));
            assert(descs@.skip(i as int)[0] == descs@[i as int]);
            assert(gt.skip(i as int)[0] == gt[i as int]);
            assert(scripts@.skip(i as int)[0] == scripts@[i as int]);
        }
        let task = run_task(&descs[i], &tickets[i], wait, &scripts[i]);
        if task.transfer_attempted {
            transfers = transfers + 1;
        }
        proof {
            assert(polls + task.poll_attempts <= (MAX_RETRIES + 1) * (i + 1)) by (nonlinear_arith)
                requires
                    polls <= (MAX_RETRIES + 1) * i,
                    task.poll_attempts <= MAX_RETRIES + 1,
            ;
            assert((MAX_RETRIES + 1) * (i + 1) <= (MAX_RETRIES + 1) * n) by (nonlinear_arith)
                requires
                    i + 1 <= n,
            ;
        }
        polls = polls + task.poll_attempts;
        let ghost rest = spec_batch_results(
            descs@.skip(i as int + 1),
            gt.skip(i as int + 1),
            wait,
            scripts@.skip(i as int + 1),
        );
        match task.outcome {
            Ok(u) => {
                proof {
                    assert((results@ + seq![u]) + rest =~= results@ + (seq![u] + rest));
                }
                results.push(u);
            },
            Err(_) => {
                proof {
                    assert(results@ + (Seq::<FileUpload>::empty() + rest) =~= results@ + rest);
                }
            },
        }
        i = i + 1;
    }
    proof {
        assert(descs@.skip(n as int) =~= Seq::<FileDescriptor>::empty());
        assert(results@ + Seq::<FileUpload>::empty() =~= results@);
        if !wait {
            lemma_no_wait_no_polls(gt.skip(n as int), scripts@.skip(n as int));
            lemma_no_wait_no_polls(gt, scripts@);
        }
    }
    BatchRun { outcome: Ok(results), transfers_attempted: transfers, poll_attempts: polls }
}

/// Full-success law: when the single ticket call issued one ticket
/// per request and every task succeeds, the batch yields exactly one
/// result per request, and the i-th result carries its own request's
/// name and size and its own ticket's key and URL.
pub proof fn lemma_batch_full_success(
    descs: Seq<FileDescriptor>,
    tickets: Seq<UploadFileResponseData>,
    wait: bool,
    scripts: Seq<TaskScript>,
)
    requires
        tickets.len() == descs.len(),
        scripts.len() == descs.len(),
        forall|i: int|
            0 <= i < descs.len() ==> spec_task_succeeds(#[trigger] tickets[i], wait, scripts[i]),
    ensures
        spec_batch_results(descs, tickets, wait, scripts).len() == descs.len(),
        forall|i: int|
            0 <= i < descs.len() ==> spec_batch_results(descs, tickets, wait, scripts)[i]
                == spec_upload_of(descs[i], tickets[i]),
    decreases descs.len(),
{
    if descs.len() > 0 {
        assert forall|i: int| 0 <= i < descs.drop_first().len() implies spec_task_succeeds(
            #[trigger] tickets.drop_first()[i],
            wait,
            scripts.drop_first()[i],
        ) by {
            assert(tickets.drop_first()[i] == tickets[i + 1]);
            assert(scripts.drop_first()[i] == scripts[i + 1]);
        }
        lemma_batch_full_success(
            descs.drop_first(),
            tickets.drop_first(),
            wait,
            scripts.drop_first(),
        );
        let all = spec_batch_results(descs, tickets, wait, scripts);
        let rest = spec_batch_results(
            descs.drop_first(),
            tickets.drop_first(),
            wait,
            scripts.drop_first(),
        );
        assert forall|i: int| 0 <= i < descs.len() implies all[i] == spec_upload_of(
            descs[i],
            tickets[i],
        ) by {
            if i > 0 {
                assert(all[i] == rest[i - 1]);
                assert(descs.drop_first()[i - 1] == descs[i]);
                assert(tickets.drop_first()[i - 1] == tickets[i]);
            }
        }
    }
}

/// Failure-isolation law: when exactly one task fails, the batch
/// yields one result per other request — results before the failing
/// index unchanged, later ones shifted down by one — and nothing for
/// the failing file.
pub proof fn lemma_batch_single_failure(
    descs: Seq<FileDescriptor>,
    tickets: Seq<UploadFileResponseData>,
    wait: bool,
    scripts: Seq<TaskScript>,
    t: int,
)
    requires
        tickets.len() == descs.len(),
        scripts.len() == descs.len(),
        0 <= t < descs.len(),
        !spec_task_succeeds(tickets[t], wait, scripts[t]),
        forall|i: int|
            0 <= i < descs.len() && i != t ==> spec_task_succeeds(
                #[trigger] tickets[i],
                wait,
                scripts[i],
            ),
    ensures
        spec_batch_results(descs, tickets, wait, scripts).len() == descs.len() - 1,
        forall|i: int|
            0 <= i < t ==> spec_batch_results(descs, tickets, wait, scripts)[i] == spec_upload_of(
                descs[i],
                tickets[i],
            ),
        forall|i: int|
            t <= i < descs.len() - 1 ==> spec_batch_results(descs, tickets, wait, scripts)[i]
                == spec_upload_of(descs[i + 1], tickets[i + 1]),
    decreases descs.len(),
{
    let all = spec_batch_results(descs, tickets, wait, scripts);
    let rest = spec_batch_results(
        descs.drop_first(),
        tickets.drop_first(),
        wait,
        scripts.drop_first(),
    );
    if t == 0 {
        assert forall|i: int| 0 <= i < descs.drop_first().len() implies spec_task_succeeds(
            #[trigger] tickets.drop_first()[i],
            wait,
            scripts.drop_first()[i],
        ) by {
            assert(tickets.drop_first()[i] == tickets[i + 1]);
            assert(scripts.drop_first()[i] == scripts[i + 1]);
        }
        lemma_batch_full_success(
            descs.drop_first(),
            tickets.drop_first(),
            wait,
            scripts.drop_first(),
        );
        assert forall|i: int| 0 <= i < descs.len() - 1 implies all[i] == spec_upload_of(
            descs[i + 1],
            tickets[i + 1],
        ) by {
            assert(all[i] == rest[i]);
            assert(descs.drop_first()[i] == descs[i + 1]);
            assert(tickets.drop_first()[i] == tickets[i + 1]);
        }
    } else {
        assert forall|i: int|
            0 <= i < descs.drop_first().len() && i != t - 1 implies spec_task_succeeds(
            #[trigger] tickets.drop_first()[i],
            wait,
            scripts.drop_first()[i],
        ) by {
            assert(tickets.drop_first()[i] == tickets[i + 1]);
            assert(scripts.drop_first()[i] == scripts[i + 1]);
        }
        assert(tickets.drop_first()[t - 1] == tickets[t]);
        assert(scripts.drop_first()[t - 1] == scripts[t]);
        lemma_batch_single_failure(
            descs.drop_first(),
            tickets.drop_first(),
            wait,
            scripts.drop_first(),
            t - 1,
        );
        assert(spec_task_succeeds(tickets[0], wait, scripts[0]));
        assert forall|i: int| 0 <= i < t implies all[i] == spec_upload_of(descs[i], tickets[i]) by {
            if i > 0 {
                assert(all[i] == rest[i - 1]);
                assert(descs.drop_first()[i - 1] == descs[i]);
                assert(tickets.drop_first()[i - 1] == tickets[i]);
            }
        }
        assert forall|i: int| t <= i < descs.len() - 1 implies all[i] == spec_upload_of(
            descs[i + 1],
            tickets[i + 1],
        ) by {
            assert(all[i] == rest[i - 1]);
            assert(descs.drop_first()[i] == descs[i + 1]);
            assert(tickets.drop_first()[i] == tickets[i + 1]);
        }
    }
}

/// Budget-exhaustion law, seen from the coordinator: a task whose
/// every poll probe goes unanswered (and whose signal never fires)
/// never counts as a success when the batch waits for completion, so
/// its file is excluded from the results like any other failure —
/// even though the poll ending itself is the non-error incomplete
/// outcome.
pub proof fn lemma_unconfirmed_file_excluded(ticket: UploadFileResponseData, script: TaskScript)
    requires
        script.poll@.len() > MAX_RETRIES,
        forall|i: int|
            0 <= i < script.poll@.len() ==> !crate::poll::spec_probe_done(
                (#[trigger] script.poll@[i]).probe,
            ),
        forall|i: int|
            0 <= i < script.poll@.len() ==> !(#[trigger] script.poll@[i]).cancel_during_backoff,
    ensures
        spec_poll(script.poll@, 0).0 == Some(PollEnd::Incomplete),
        !spec_task_succeeds(ticket, true, script),
{
    crate::poll::lemma_poll_budget_exhaustion(script.poll@);
}

/// The records of the successful outcomes, in order: a failing
/// outcome contributes nothing.
pub open spec fn spec_successes(outcomes: Seq<Result<FileUpload, TaskFailure>>) -> Seq<FileUpload>
    decreases outcomes.len(),
{
    if outcomes.len() == 0 {
        Seq::empty()
    } else {
        (match outcomes[0] {
            Ok(u) => seq![u],
            Err(_) => Seq::empty(),
        }) + spec_successes(outcomes.drop_first())
    }
}

/// Collects the results of a batch from its task outcomes: every
/// success keeps its record, in order, and every failure is simply
/// excluded — it aborts nothing else.
pub fn collect_results(outcomes: Vec<Result<FileUpload, TaskFailure>>) -> (rs: Vec<FileUpload>)
    ensures
        rs@ == spec_successes(outcomes@),
{
    let ghost whole = spec_successes(outcomes@);
    let mut rs: Vec<FileUpload> = Vec::new();
    let mut i: usize = 0;
    proof {
        assert(outcomes@.skip(0) =~= outcomes@);
        assert(rs@ + whole =~= whole);
    }
    while i < outcomes.len()
        invariant
            i <= outcomes@.len(),
            whole == spec_successes(outcomes@),
            whole == rs@ + spec_successes(outcomes@.skip(i as int)),
        decreases outcomes@.len() - i,
    {
        proof {
            assert(outcomes@.skip(i as int)[0] == outcomes@[i as int]);
            assert(outcomes@.skip(i as int).drop_first() =~= outcomes@.skip(i as int + 1));
        }
        let ghost rest = spec_successes(outcomes@.skip(i as int + 1));
        match &outcomes[i] {
            Ok(u) => {
                proof {
                    assert((rs@ + seq![*u]) + rest =~= rs@ + (seq![*u] + rest));
                }
                let copy = FileUpload {
                    key: u.key.clone(),
                    url: u.url.clone(),
                    name: u.name.clone(),
                    size: u.size,
                };
                rs.push(copy);
            },
            Err(_) => {
                proof {
                    assert(rs@ + (Seq::<FileUpload>::empty() + rest) =~= rs@ + rest);
                }
            },
        }
        i = i + 1;
    }
    proof {
        assert(outcomes@.skip(outcomes@.len() as int) =~= Seq::<Result<FileUpload, TaskFailure>>::empty());
        assert(rs@ + Seq::<FileUpload>::empty() =~= rs@);
    }
    rs
}

} // verus!
