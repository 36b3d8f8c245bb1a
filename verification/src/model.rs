//! The values that flow through the pipeline.

use vstd::prelude::*;

verus! {

/// The characters of each string of a sequence, in order.
pub open spec fn texts(items: Seq<String>) -> Seq<Seq<char>> {
    Seq::new(items.len(), |i: int| items[i]@)
}

/// A language runtime that the execution engine offers.
#[derive(Clone, Debug, PartialEq, Eq)]
pub struct Runtime {
    pub language: String,
    pub version: String,
    pub aliases: Vec<String>,
}

/// A package that the execution engine knows, installed or not.
#[derive(Clone, Debug, PartialEq, Eq)]
pub struct Package {
    pub language: String,
    pub version: String,
    pub installed: bool,
}

/// One source file of a submission.
#[derive(Clone, Debug, PartialEq, Eq)]
pub struct SourceFile {
    pub name: String,
    pub content: String,
    pub encoding: String,
}

/// What a `SourceFile` holds, as sequences of characters.
pub ghost struct SourceFileView {
    pub name: Seq<char>,
    pub content: Seq<char>,
    pub encoding: Seq<char>,
}

impl View for SourceFile {
    type V = SourceFileView;

    open spec fn view(&self) -> SourceFileView {
        SourceFileView { name: self.name@, content: self.content@, encoding: self.encoding@ }
    }
}

impl SourceFile {
    /// A file with the given name, content and encoding.
    pub fn new(name: String, content: String, encoding: String) -> (file: SourceFile)
        ensures
            file.name == name,
            file.content == content,
            file.encoding == encoding,
    {
        SourceFile { name, content, encoding }
    }
}

/// A submitted program with its execution parameters. Timeouts are in
/// milliseconds and memory limits in bytes; a negative limit means none.
#[derive(Clone, Debug, PartialEq, Eq)]
pub struct Job {
    pub language: String,
    pub version: String,
    pub files: Vec<SourceFile>,
    pub stdin: String,
    pub args: Vec<String>,
    pub compile_timeout: isize,
    pub run_timeout: isize,
    pub compile_memory_limit: isize,
    pub run_memory_limit: isize,
}

/// What a `Job` holds, as mathematical values.
pub ghost struct JobView {
    pub language: Seq<char>,
    pub version: Seq<char>,
    pub files: Seq<SourceFileView>,
    pub stdin: Seq<char>,
    pub args: Seq<Seq<char>>,
    pub compile_timeout: int,
    pub run_timeout: int,
    pub compile_memory_limit: int,
    pub run_memory_limit: int,
}

impl View for Job {
    type V = JobView;

    open spec fn view(&self) -> JobView {
        JobView {
            language: self.language@,
            version: self.version@,
            files: Seq::new(self.files@.len(), |i: int| self.files@[i]@),
            stdin: self.stdin@,
            args: texts(self.args@),
            compile_timeout: self.compile_timeout as int,
            run_timeout: self.run_timeout as int,
            compile_memory_limit: self.compile_memory_limit as int,
            run_memory_limit: self.run_memory_limit as int,
        }
    }
}

impl Job {
    /// A job of the given parts: language and version, the source files,
    /// standard input and arguments, then the compile and run timeouts and
    /// the compile and run memory limits.
    pub fn from_parts(
        language: String,
        version: String,
        files: Vec<SourceFile>,
        stdin: String,
        args: Vec<String>,
        compile_timeout: isize,
        run_timeout: isize,
        compile_memory_limit: isize,
        run_memory_limit: isize,
    ) -> (job: Job)
        ensures
            job == (Job {
                language,
                version,
                files,
                stdin,
                args,
                compile_timeout,
                run_timeout,
                compile_memory_limit,
                run_memory_limit,
            }),
    {
        Job {
            language,
            version,
            files,
            stdin,
            args,
            compile_timeout,
            run_timeout,
            compile_memory_limit,
            run_memory_limit,
        }
    }

    /// Whether one of the runtimes has this job's language and version.
    /// Nothing holds a job against this when it is queued; a job for which
    /// it fails is one that the engine will refuse.
    pub open spec fn spec_known_to(&self, runtimes: &Vec<Runtime>) -> bool {
        exists|i: int|
            0 <= i < runtimes@.len() && (#[trigger] runtimes@[i]).language@ == self.language@
                && runtimes@[i].version@ == self.version@
    }

    /// Whether one of the runtimes has this job's language and version.
    #[verifier::when_used_as_spec(spec_known_to)]
    pub fn known_to(&self, runtimes: &Vec<Runtime>) -> (known: bool)
        ensures
            known == self.spec_known_to(runtimes),
    {
        let mut i: usize = 0;
        while i < runtimes.len()
            invariant
                i <= runtimes.len(),
                forall|k: int|
                    0 <= k < i ==> !((#[trigger] runtimes@[k]).language@ == self.language@
                        && runtimes@[k].version@ == self.version@),
            decreases runtimes.len() - i,
        {
            if runtimes[i].language == self.language && runtimes[i].version == self.version {
                return true;
            }
            i += 1;
        }
        false
    }
}

/// What the execution engine reports of one run.
#[derive(Clone, Debug, PartialEq, Eq)]
pub struct ExecutionResult {
    pub stdout: String,
    pub stderr: String,
    pub compile_output: Option<String>,
    pub exit_code: Option<isize>,
    pub signal: Option<String>,
}

impl ExecutionResult {
    /// Whether the program ran to a zero exit code.
    pub open spec fn spec_succeeded(&self) -> bool {
        self.exit_code == Some(0isize)
    }

    /// Whether the program ran to a zero exit code.
    #[verifier::when_used_as_spec(spec_succeeded)]
    pub fn succeeded(&self) -> (ok: bool)
        ensures
            ok == self.spec_succeeded(),
    {
        match self.exit_code {
            Some(code) => code == 0,
            None => false,
        }
    }
}

} // verus!
