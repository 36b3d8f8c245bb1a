//! The submission gateway: what it answers on each route, and what it
//! publishes for a submission.

use vstd::prelude::*;
use vstd::string::StringExecFns;
use crate::codec::{encoded_job, parsed_job, reads_back, DecodeError};
use crate::config::Settings;
use crate::model::{Job, Package, Runtime};

verus! {

/// Status of a request that was served.
pub const STATUS_OK: u16 = 200;

/// Status of a request whose body is not what the route takes.
pub const STATUS_BAD_REQUEST: u16 = 400;

/// Status of a request whose body is JSON of another shape than the route
/// takes.
pub const STATUS_UNPROCESSABLE_ENTITY: u16 = 422;

/// Status of a request that failed behind the gateway.
pub const STATUS_INTERNAL_SERVER_ERROR: u16 = 500;

/// A status code and a text body.
#[derive(Clone, Debug, PartialEq, Eq)]
pub struct HttpReply {
    pub status: u16,
    pub body: String,
}

impl HttpReply {
    /// Whether this reply carries the given status and text.
    pub open spec fn says(&self, status: u16, text: Seq<char>) -> bool {
        self.status == status && self.body@ == text
    }
}

/// The items in order with the separator between each two.
pub open spec fn joined(items: Seq<Seq<char>>, separator: Seq<char>) -> Seq<char>
    decreases items.len(),
{
    if items.len() == 0 {
        Seq::<char>::empty()
    } else if items.len() == 1 {
        items[0]
    } else {
        joined(items.drop_last(), separator) + separator + items.last()
    }
}

/// A heading, then the items in square brackets, separated by a comma and
/// a space.
pub open spec fn listing(heading: Seq<char>, items: Seq<Seq<char>>) -> Seq<char> {
    heading + " ["@ + joined(items, ", "@) + "]"@
}

/// How a runtime shows in the list: language, colon, space, version.
pub open spec fn runtime_entry(runtime: Runtime) -> Seq<char> {
    runtime.language@ + ": "@ + runtime.version@
}

/// A text as std's developer formatter shows it: in double quotes, with
/// the characters that need it escaped.
pub uninterp spec fn quoted(text: Seq<char>) -> Seq<char>;

/// Calls std's `format!` with the `Debug` form of a string slice.
/// Trusted: the text depends on the characters alone, so it is `quoted`
/// of them; nothing is claimed about which characters are escaped.
#[verifier::external_body]
fn quote(text: &str) -> (shown: String)
    ensures
        shown@ == quoted(text@),
{
    format!("{:?}", text)
}

/// How a package shows in the list: its name and its three fields, one
/// per line, indented by four spaces.
pub open spec fn package_entry(package: Package) -> Seq<char> {
    "Package {\n    language: "@ + quoted(package.language@) + ",\n    version: "@ + quoted(
        package.version@,
    ) + ",\n    installed: "@ + (if package.installed {
        "true"@
    } else {
        "false"@
    }) + ",\n}"@
}

/// Writes a package as it shows in the list.
pub fn package_text(package: &Package) -> (text: String)
    ensures
        text@ == package_entry(*package),
{
    let mut text = String::from_str("Package {\n    language: ");
    text.append(quote(package.language.as_str()).as_str());
    text.append(",\n    version: ");
    text.append(quote(package.version.as_str()).as_str());
    text.append(",\n    installed: ");
    if package.installed {
        text.append("true");
    } else {
        text.append("false");
    }
    text.append(",\n}");
    text
}

/// Writes a heading and a bracketed list.
pub fn render_listing(heading: &str, items: &Vec<String>) -> (text: String)
    ensures
        text@ == listing(heading@, crate::model::texts(items@)),
{
    let ghost all = crate::model::texts(items@);
    let mut text = String::from_str(heading);
    text.append(" [");
    let mut i: usize = 0;
    while i < items.len()
        invariant
            i <= items.len(),
            all == crate::model::texts(items@),
            text@ == heading@ + " ["@ + joined(all.take(i as int), ", "@),
        decreases items.len() - i,
    {
        let ghost done = all.take(i as int);
        let ghost more = all.take(i + 1);
        proof {
            assert(more.drop_last() =~= done);
        }
        if i > 0 {
            text.append(", ");
            proof {
                assert(text@ =~= heading@ + " ["@ + (joined(done, ", "@) + ", "@));
            }
        }
        text.append(items[i].as_str());
        proof {
            assert(text@ =~= heading@ + " ["@ + joined(more, ", "@));
        }
        i += 1;
    }
    proof {
        assert(all.take(items.len() as int) =~= all);
    }
    text.append("]");
    text
}

/// The reply of the root route.
pub fn root_reply() -> (reply: HttpReply)
    ensures
        reply.says(STATUS_OK, "Hello, rjudge!"@),
{
    HttpReply { status: STATUS_OK, body: String::from_str("Hello, rjudge!") }
}

/// The entries of a runtime list, one per runtime, in order.
pub open spec fn runtime_entries(runtimes: Seq<Runtime>) -> Seq<Seq<char>> {
    Seq::new(runtimes.len(), |i: int| runtime_entry(runtimes[i]))
}

/// The entries of a package list, one per package, in order.
pub open spec fn package_entries(packages: Seq<Package>) -> Seq<Seq<char>> {
    Seq::new(
        packages.len(),
        |i: int| package_entry(packages[i]),
    )
}

/// The reply to a query for the runtimes, given what the engine returned,
/// if it returned anything.
pub fn runtimes_reply(fetched: Option<Vec<Runtime>>) -> (reply: HttpReply)
    ensures
        match fetched {
            Some(runtimes) => reply.says(
                STATUS_OK,
                listing("Available runtimes:"@, runtime_entries(runtimes@)),
            ),
            None => reply.says(STATUS_INTERNAL_SERVER_ERROR, "Failed to fetch runtimes"@),
        },
{
    match fetched {
        Some(runtimes) => {
            let mut entries: Vec<String> = Vec::new();
            let mut i: usize = 0;
            while i < runtimes.len()
                invariant
                    i <= runtimes.len(),
                    entries@.len() == i,
                    forall|k: int| 0 <= k < i ==> (#[trigger] entries@[k])@ == runtime_entry(runtimes@[k]),
                decreases runtimes.len() - i,
            {
                let mut entry = runtimes[i].language.clone();
                entry.append(": ");
                entry.append(runtimes[i].version.as_str());
                entries.push(entry);
                i += 1;
            }
            proof {
                assert(crate::model::texts(entries@) =~= runtime_entries(runtimes@));
            }
            HttpReply { status: STATUS_OK, body: render_listing("Available runtimes:", &entries) }
        },
        None => HttpReply {
            status: STATUS_INTERNAL_SERVER_ERROR,
            body: String::from_str("Failed to fetch runtimes"),
        },
    }
}

/// The reply to a query for the packages, given what the engine returned,
/// if it returned anything.
pub fn packages_reply(fetched: Option<Vec<Package>>) -> (reply: HttpReply)
    ensures
        match fetched {
            Some(packages) => reply.says(
                STATUS_OK,
                listing("Available packages:"@, package_entries(packages@)),
            ),
            None => reply.says(STATUS_INTERNAL_SERVER_ERROR, "Failed to fetch packages"@),
        },
{
    match fetched {
        Some(packages) => {
            let mut entries: Vec<String> = Vec::new();
            let mut i: usize = 0;
            while i < packages.len()
                invariant
                    i <= packages.len(),
                    entries@.len() == i,
                    forall|k: int|
                        0 <= k < i ==> (#[trigger] entries@[k])@ == package_entry(packages@[k]),
                decreases packages.len() - i,
            {
                entries.push(package_text(&packages[i]));
                i += 1;
            }
            proof {
                assert(crate::model::texts(entries@) =~= package_entries(packages@));
            }
            HttpReply { status: STATUS_OK, body: render_listing("Available packages:", &entries) }
        },
        None => HttpReply {
            status: STATUS_INTERNAL_SERVER_ERROR,
            body: String::from_str("Failed to fetch packages"),
        },
    }
}

/// The reply to a request to install a package, given whether the engine
/// installed it.
pub fn install_reply(installed: bool) -> (reply: HttpReply)
    ensures
        installed ==> reply.says(STATUS_OK, "Package installed"@),
        !installed ==> reply.says(STATUS_INTERNAL_SERVER_ERROR, "Failed to install package"@),
{
    if installed {
        HttpReply { status: STATUS_OK, body: String::from_str("Package installed") }
    } else {
        HttpReply {
            status: STATUS_INTERNAL_SERVER_ERROR,
            body: String::from_str("Failed to install package"),
        }
    }
}

/// One message for the broker.
#[derive(Clone, Debug, PartialEq, Eq)]
pub struct Outgoing {
    pub exchange: String,
    pub routing_key: String,
    pub content: Vec<u8>,
}

/// What the gateway does with a submission: publish exactly one message,
/// or answer at once without touching the broker.
#[derive(Clone, Debug, PartialEq, Eq)]
pub enum Submission {
    Publish { message: Outgoing },
    Refuse { reply: HttpReply },
}

impl Submission {
    /// Whether this is the one message with the given content, addressed
    /// as the settings say.
    pub open spec fn publishes(&self, settings: &Settings, content: Seq<u8>) -> bool {
        &&& self is Publish
        &&& self->message.exchange@ == settings.exchange_name@
        &&& self->message.routing_key@ == settings.routing_key@
        &&& self->message.content@ == content
    }

    /// Whether this is a refusal with the given status and text.
    pub open spec fn refuses(&self, status: u16, text: Seq<char>) -> bool {
        self is Refuse && self->reply.says(status, text)
    }
}

/// What to do with a submission whose job was written as these bytes, if
/// it could be written.
pub fn publication(settings: &Settings, content: Option<Vec<u8>>) -> (plan: Submission)
    ensures
        match content {
            Some(bytes) => plan.publishes(settings, bytes@),
            None => plan.refuses(STATUS_INTERNAL_SERVER_ERROR, "Failed to publish submission"@),
        },
{
    match content {
        Some(bytes) => Submission::Publish {
            message: Outgoing {
                exchange: settings.exchange_name.clone(),
                routing_key: settings.routing_key.clone(),
                content: bytes,
            },
        },
        None => Submission::Refuse {
            reply: HttpReply {
                status: STATUS_INTERNAL_SERVER_ERROR,
                body: String::from_str("Failed to publish submission"),
            },
        },
    }
}

/// The status with which a body that is no job is refused: JSON of the
/// wrong shape cannot be processed, anything else is a bad request.
pub open spec fn spec_refusal_status(error: DecodeError) -> u16 {
    match error {
        DecodeError::Data => STATUS_UNPROCESSABLE_ENTITY,
        _ => STATUS_BAD_REQUEST,
    }
}

/// The status with which a body that is no job is refused.
#[verifier::when_used_as_spec(spec_refusal_status)]
pub fn refusal_status(error: DecodeError) -> (status: u16)
    ensures
        status == spec_refusal_status(error),
{
    match error {
        DecodeError::Data => STATUS_UNPROCESSABLE_ENTITY,
        _ => STATUS_BAD_REQUEST,
    }
}

/// What to do with a submission, given what its body was read as. The job
/// is not held against the engine's runtimes: any job of the right shape
/// is published.
pub fn dispatch(settings: &Settings, parsed: Result<Job, DecodeError>) -> (plan: Submission)
    ensures
        match parsed {
            Ok(job) => match encoded_job(job@) {
                Some(bytes) => plan.publishes(settings, bytes),
                None => plan.refuses(STATUS_INTERNAL_SERVER_ERROR, "Failed to publish submission"@),
            },
            Err(error) => plan.refuses(spec_refusal_status(error), "Malformed submission"@),
        },
{
    match parsed {
        Ok(job) => publication(settings, job.encode()),
        Err(error) => Submission::Refuse {
            reply: HttpReply {
                status: refusal_status(error),
                body: String::from_str("Malformed submission"),
            },
        },
    }
}

/// What the gateway owes for a request body: a body that is no job is
/// refused with the status of its fault; a job that cannot be written is a failed
/// publish; any other job is published once, as its written form.
pub open spec fn accepted(settings: &Settings, body: Seq<u8>, plan: Submission) -> bool {
    match parsed_job(body) {
        Ok(job) => match encoded_job(job) {
            Some(bytes) => plan.publishes(settings, bytes),
            None => plan.refuses(STATUS_INTERNAL_SERVER_ERROR, "Failed to publish submission"@),
        },
        Err(error) => plan.refuses(spec_refusal_status(error), "Malformed submission"@),
    }
}

/// What to do with the body of a submission request: a body that is no
/// job is refused before anything is published; any other is published
/// once, as the bytes of the job it holds.
pub fn accept_submission(settings: &Settings, body: &[u8]) -> (plan: Submission)
    ensures
        accepted(settings, body@, plan),
{
    dispatch(settings, Job::decode(body))
}

/// A body that is no job never reaches the broker: the gateway's answer
/// to it is a refusal with a 4xx status.
pub proof fn malformed_submission_is_never_published(
    settings: &Settings,
    body: Seq<u8>,
    plan: Submission,
)
    ensures
        accepted(settings, body, plan) && parsed_job(body) is Err ==> plan is Refuse
            && 400 <= plan->reply.status < 500,
{
}

/// A submitted job that reads back from its written form is published as
/// one message on the configured exchange and routing key, and what a
/// worker reads from that message is the submitted job.
pub proof fn published_submission_reads_back(settings: &Settings, body: Seq<u8>, plan: Submission)
    ensures
        accepted(settings, body, plan) && parsed_job(body) is Ok && reads_back(
            parsed_job(body).unwrap(),
        ) ==> plan is Publish && plan->message.exchange@ == settings.exchange_name@
            && plan->message.routing_key@ == settings.routing_key@ && parsed_job(
            plan->message.content@,
        ) == parsed_job(body),
{
}

/// A message published under settings that agree with a worker's goes to
/// the exchange and under the routing key to which that worker's queue is
/// bound.
pub proof fn agreeing_settings_share_a_route(
    gateway: &Settings,
    worker: &Settings,
    plan: Submission,
    content: Seq<u8>,
)
    ensures
        gateway.spec_agrees_with(worker) && plan.publishes(gateway, content) ==> plan.publishes(
            worker,
            content,
        ),
{
}

/// The reply to a submission, given whether the broker took the message.
/// It is sent before any execution and carries no handle on the outcome.
pub fn submission_reply(published: bool) -> (reply: HttpReply)
    ensures
        published ==> reply.says(STATUS_OK, "Submission received"@),
        !published ==> reply.says(STATUS_INTERNAL_SERVER_ERROR, "Failed to publish submission"@),
{
    if published {
        HttpReply { status: STATUS_OK, body: String::from_str("Submission received") }
    } else {
        HttpReply {
            status: STATUS_INTERNAL_SERVER_ERROR,
            body: String::from_str("Failed to publish submission"),
        }
    }
}

} // verus!
