//! Creating temporary files: a named one at a path the caller chose, or an
//! anonymous one under a random name that the system removes on close.
use vstd::prelude::*;
use vstd::string::StringExecFns;
use crate::error::{not_supported, TempError};
use crate::flags::{anonymous_open_request, anonymous_request, named_open_request, named_request, OpenRequest};

verus! {

/// How many random characters an anonymous file's name holds.
pub const NUM_RAND_CHARS: usize = 6;

/// How many candidate names an anonymous create tries before giving up.
pub const NUM_RETRIES: u32 = 1 << 31;

/// The prefix of an anonymous file's name.
pub open spec fn anonymous_prefix() -> Seq<char> {
    seq!['.', 't', 'm', 'p']
}

/// The open request for a file at a path of the caller's choosing, or
/// [`TempError::Unsupported`] where the caller asked for a read-only file,
/// which the platform cannot create atomically.
pub fn create_named(readonly_requested: bool) -> (r: Result<OpenRequest, TempError>)
    ensures
        readonly_requested ==> (r matches Err(TempError::Unsupported { msg })
            && msg@ == "changing permissions is not supported on this platform"@),
        !readonly_requested ==> r == Ok::<OpenRequest, TempError>(named_request()),
{
    if readonly_requested {
        return not_supported("changing permissions is not supported on this platform");
    }
    Ok(named_open_request())
}

/// A candidate for an anonymous temporary file: its file name, to be joined
/// to the target directory, and how to open it.
pub struct Candidate {
    pub file_name: String,
    pub request: OpenRequest,
}

/// The candidate whose name carries the random characters `random`.
pub fn create(random: &str) -> (r: Candidate)
    ensures
        r.file_name@ == anonymous_prefix() + random@,
        r.request == anonymous_request(),
{
    let mut file_name = String::from_str(".tmp");
    proof {
        reveal_strlit(".tmp");
    }
    file_name.append(random);
    assert(file_name@ =~= anonymous_prefix() + random@);
    Candidate { file_name, request: anonymous_open_request() }
}

/// How an exclusive create at a candidate path ended.
#[derive(Debug, Clone, Copy, PartialEq, Eq)]
pub enum OpenOutcome {
    /// The file was created.
    Opened,
    /// Something already exists at the path.
    Exists,
    /// Any other failure, with the system's error code.
    Failed { code: i32 },
}

/// What the retry loop does next.
#[derive(Debug, PartialEq, Eq)]
pub enum SearchStep {
    /// Try a fresh candidate name.
    Try,
    /// Stop with `result`.
    Finished { result: Result<(), TempError> },
}

/// The retry loop over candidate names: an occupied name is retried with a
/// fresh one, any other failure is final, and the loop gives up after
/// `budget` occupied names.
pub struct NameSearch {
    pub attempts: u32,
    pub budget: u32,
}

/// The step after `attempts` occupied names out of `budget`.
pub open spec fn search_step(attempts: u32, budget: u32) -> SearchStep {
    if attempts < budget {
        SearchStep::Try
    } else {
        SearchStep::Finished { result: Err(TempError::Exhausted) }
    }
}

impl NameSearch {
    pub fn new(budget: u32) -> (r: NameSearch)
        ensures
            r.attempts == 0,
            r.budget == budget,
    {
        NameSearch { attempts: 0, budget }
    }

    /// Whether to try a candidate, before any has been tried.
    pub fn step(&self) -> (r: SearchStep)
        ensures
            r == search_step(self.attempts, self.budget),
    {
        if self.attempts < self.budget {
            SearchStep::Try
        } else {
            SearchStep::Finished { result: Err(TempError::Exhausted) }
        }
    }

    /// Records how the create at the last candidate ended, and says what
    /// comes next.
    pub fn record(&mut self, outcome: OpenOutcome) -> (r: SearchStep)
        requires
            old(self).attempts < old(self).budget,
        ensures
            final(self).budget == old(self).budget,
            outcome == OpenOutcome::Opened ==> r == (SearchStep::Finished { result: Ok(()) })
                && final(self).attempts == old(self).attempts,
            outcome matches OpenOutcome::Failed { code } ==> r == (SearchStep::Finished {
                result: Err(TempError::Os { code }),
            }) && final(self).attempts == old(self).attempts,
            outcome == OpenOutcome::Exists ==> final(self).attempts == old(self).attempts + 1
                && r == search_step(final(self).attempts, final(self).budget),
    {
        match outcome {
            OpenOutcome::Opened => SearchStep::Finished { result: Ok(()) },
            OpenOutcome::Failed { code } => SearchStep::Finished {
                result: Err(TempError::Os { code }),
            },
            OpenOutcome::Exists => {
                self.attempts = self.attempts + 1;
                self.step()
            },
        }
    }
}

} // verus!
