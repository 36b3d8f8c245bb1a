//! Job messages as bytes: the JSON form in which a job crosses the broker.

use vstd::prelude::*;
use serde_json::error::Category;
use crate::model::{Job, JobView, SourceFile};

verus! {

/// Why a message body is not a job.
#[derive(Clone, Copy, Debug, PartialEq, Eq)]
pub enum DecodeError {
    /// The bytes could not be read at all.
    Io,
    /// The bytes are not JSON.
    Syntax,
    /// The bytes are JSON, but not of the shape of a job.
    Data,
    /// The bytes end in the middle of a JSON value.
    Eof,
}

/// What a message body decodes to: the job it holds, or why it holds none.
pub uninterp spec fn parsed_job(body: Seq<u8>) -> Result<JobView, DecodeError>;

/// The message body that a job is written as, if it can be written.
pub uninterp spec fn encoded_job(job: JobView) -> Option<Seq<u8>>;

/// Whether the job can be written and its written form reads back as the
/// same job.
pub open spec fn reads_back(job: JobView) -> bool {
    encoded_job(job) is Some && parsed_job(encoded_job(job).unwrap()) == Ok::<
        JobView,
        DecodeError,
    >(job)
}

/// Calls `serde_json::from_slice` for a `piston_rs::Executor`; moves the
/// fields of the executor into a `Job`, or turns the category that
/// `serde_json::Error::classify` gives into the error of the same name.
/// Trusted: the outcome depends on the bytes alone, so it is `parsed_job`
/// of them; nothing is claimed about which bytes parse.
#[verifier::external_body]
fn parse_executor(body: &[u8]) -> (job: Result<Job, DecodeError>)
    ensures
        match parsed_job(body@) {
            Ok(held) => job is Ok && job.unwrap()@ == held,
            Err(error) => job == Err::<Job, DecodeError>(error),
        },
{
    match serde_json::from_slice::<piston_rs::Executor>(body) {
        Ok(e) => Ok(Job::from_parts(
            e.language, e.version,
            e.files.into_iter().map(|f| SourceFile::new(f.name, f.content, f.encoding)).collect(),
            e.stdin, e.args,
            e.compile_timeout, e.run_timeout, e.compile_memory_limit, e.run_memory_limit,
        )),
        Err(e) => Err(match e.classify() {
            Category::Io => DecodeError::Io,
            Category::Syntax => DecodeError::Syntax,
            Category::Data => DecodeError::Data,
            Category::Eof => DecodeError::Eof,
        }),
    }
}

/// Copies the job's fields into a `piston_rs::Executor` and calls
/// `serde_json::to_string` on it. Trusted: the bytes depend on the job's
/// contents alone, so they are `encoded_job` of them.
#[verifier::external_body]
fn write_executor(job: &Job) -> (bytes: Option<Vec<u8>>)
    ensures
        bytes is Some <==> encoded_job(job@) is Some,
        bytes is Some ==> bytes.unwrap()@ == encoded_job(job@).unwrap(),
{
    let e = piston_rs::Executor {
        language: job.language.clone(),
        version: job.version.clone(),
        files: job.files.iter().map(|f| piston_rs::File::new(&f.name, &f.content, &f.encoding)).collect(),
        stdin: job.stdin.clone(),
        args: job.args.clone(),
        compile_timeout: job.compile_timeout,
        run_timeout: job.run_timeout,
        compile_memory_limit: job.compile_memory_limit,
        run_memory_limit: job.run_memory_limit,
    };
    serde_json::to_string(&e).ok().map(String::into_bytes)
}

impl Job {
    /// Reads a job from a message body.
    pub fn decode(body: &[u8]) -> (r: Result<Job, DecodeError>)
        ensures
            match parsed_job(body@) {
                Ok(held) => r is Ok && r.unwrap()@ == held,
                Err(error) => r == Err::<Job, DecodeError>(error),
            },
    {
        parse_executor(body)
    }

    /// Writes this job as a message body.
    pub fn encode(&self) -> (bytes: Option<Vec<u8>>)
        ensures
            bytes is Some <==> encoded_job(self@) is Some,
            bytes is Some ==> bytes.unwrap()@ == encoded_job(self@).unwrap(),
    {
        write_executor(self)
    }
}

} // verus!
