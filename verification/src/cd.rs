//! The `cd` built-in, split from the filesystem. The library validates the
//! arguments and resolves the tilde against the home directory; the caller
//! canonicalizes the resolved path, changes directory, and maps the two
//! outcomes back through `cd_outcome`.

use vstd::prelude::*;

use crate::prompt::opt_string_view;
use crate::strutil::{replace_all, replaced};

verus! {

/// How a built-in command ended: its exit code, under success or failure.
#[derive(Clone, Copy, PartialEq, Eq, Structural, Debug)]
pub enum ExitStatus {
    Success(i32),
    Failed(i32),
}

impl ExitStatus {
    /// The exit code carried either way.
    pub fn code(self) -> (c: i32)
        ensures
            self matches ExitStatus::Success(n) ==> c == n,
            self matches ExitStatus::Failed(n) ==> c == n,
    {
        match self {
            ExitStatus::Success(n) => n,
            ExitStatus::Failed(n) => n,
        }
    }
}

/// What a `cd` invocation asks for: an immediate failure, or the path to
/// canonicalize and change into.
pub enum CdRequest {
    Fail(ExitStatus),
    Resolve(String),
}

/// The mathematical value of a `cd` request.
#[verifier::ext_equal]
pub enum CdRequestModel {
    Fail(ExitStatus),
    Resolve(Seq<char>),
}

/// The value of a request.
pub open spec fn cd_request_model(r: CdRequest) -> CdRequestModel {
    match r {
        CdRequest::Fail(st) => CdRequestModel::Fail(st),
        CdRequest::Resolve(p) => CdRequestModel::Resolve(p@),
    }
}

/// What `cd` decides from its arguments and the home directory: more than
/// one argument fails with code 1, as does a missing home directory; else
/// the target is the single argument (or a bare tilde when there is none)
/// with every tilde replaced by the home directory.
pub open spec fn cd_decision(args: Seq<Seq<char>>, home: Option<Seq<char>>) -> CdRequestModel {
    if args.len() > 1 {
        CdRequestModel::Fail(ExitStatus::Failed(1))
    } else {
        match home {
            None => CdRequestModel::Fail(ExitStatus::Failed(1)),
            Some(h) => {
                let path = if args.len() == 0 {
                    seq!['~']
                } else {
                    args[0]
                };
                CdRequestModel::Resolve(replaced(path, seq!['~'], h))
            },
        }
    }
}

/// Law: `cd` with no arguments goes to the home directory itself.
pub proof fn lemma_cd_no_args_resolves_home(home: Seq<char>)
    ensures
        cd_decision(Seq::<Seq<char>>::empty(), Some(home)) == CdRequestModel::Resolve(home),
{
    let path = seq!['~'];
    assert(path.subrange(0, 1) =~= seq!['~']);
    assert(path.skip(1) =~= Seq::<char>::empty());
    assert(replaced(path.skip(1), seq!['~'], home) =~= Seq::<char>::empty());
    assert(replaced(path, seq!['~'], home) =~= home);
}

/// Validates the arguments of `cd` and resolves the target path.
pub fn cd(args: &Vec<String>, home: &Option<String>) -> (r: CdRequest)
    ensures
        cd_request_model(r) == cd_decision(args.deep_view(), opt_string_view(*home)),
{
    proof {
        reveal_strlit("~");
    }
    if args.len() > 1 {
        return CdRequest::Fail(ExitStatus::Failed(1));
    }
    match home {
        None => CdRequest::Fail(ExitStatus::Failed(1)),
        Some(h) => {
            let path: String = if args.len() == 0 {
                String::from_str("~")
            } else {
                args[0].clone()
            };
            proof {
                assert("~"@ =~= seq!['~']);
            }
            CdRequest::Resolve(replace_all(path.as_str(), "~", h.as_str()))
        },
    }
}

/// Maps the outcomes of canonicalizing the target and changing directory to
/// the exit status: a path that does not resolve fails with code 1, a
/// resolved path that cannot be entered fails with code 2, and success
/// reports code 0.
pub fn cd_outcome(canonicalize_ok: bool, chdir_ok: bool) -> (r: ExitStatus)
    ensures
        !canonicalize_ok ==> r == ExitStatus::Failed(1),
        canonicalize_ok && !chdir_ok ==> r == ExitStatus::Failed(2),
        canonicalize_ok && chdir_ok ==> r == ExitStatus::Success(0),
{
    if !canonicalize_ok {
        ExitStatus::Failed(1)
    } else if !chdir_ok {
        ExitStatus::Failed(2)
    } else {
        ExitStatus::Success(0)
    }
}

} // verus!
