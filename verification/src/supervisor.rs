//! Where the worker is found: which executable runs it, and which script it
//! runs.
//!
//! Looking at the environment, the search path and the disk is left to the
//! caller. What was found is handed in, and the choice is made here.

use vstd::prelude::*;
use crate::error::BridgeError;
use crate::error::BridgeErrorView;

verus! {

/// A place where something may be: the path, and whether it is there.
#[derive(Debug, Clone, PartialEq, Eq)]
pub struct Candidate {
    pub path: String,
    pub present: bool,
}

/// What a [`Candidate`] holds.
pub struct CandidateView {
    pub path: Seq<char>,
    pub present: bool,
}

impl View for Candidate {
    type V = CandidateView;

    open spec fn view(&self) -> CandidateView {
        CandidateView { path: self.path@, present: self.present }
    }
}

/// The views of a list of candidates, one for one.
pub open spec fn candidates_view(list: Seq<Candidate>) -> Seq<CandidateView> {
    Seq::new(list.len(), |i: int| list[i]@)
}

/// The path of the first candidate that is there.
pub open spec fn first_present(candidates: Seq<CandidateView>) -> Option<Seq<char>>
    decreases candidates.len(),
{
    if candidates.len() == 0 {
        None
    } else if candidates[0].present {
        Some(candidates[0].path)
    } else {
        first_present(candidates.drop_first())
    }
}

/// The first of a list of lookups that found something.
pub open spec fn first_found(lookups: Seq<Option<Seq<char>>>) -> Option<Seq<char>>
    decreases lookups.len(),
{
    if lookups.len() == 0 {
        None
    } else if lookups[0] is Some {
        lookups[0]
    } else {
        first_found(lookups.drop_first())
    }
}

/// The lookups of a list, as views.
pub open spec fn lookups_view(list: Seq<Option<String>>) -> Seq<Option<Seq<char>>> {
    Seq::new(
        list.len(),
        |i: int|
            match list[i] {
                Some(path) => Some(path@),
                None => None,
            },
    )
}

/// The executable that runs the worker: the override where there is one,
/// else what the search path gave, else the first fallback that is there.
pub open spec fn chosen_binary(
    explicit: Option<Seq<char>>,
    discovered: Option<Seq<char>>,
    fallbacks: Seq<CandidateView>,
) -> Option<Seq<char>> {
    match explicit {
        Some(path) => Some(path),
        None => match discovered {
            Some(path) => Some(path),
            None => first_present(fallbacks),
        },
    }
}

/// The script that the worker runs: the first packaged resource that was
/// found, else the fallback if it is there.
pub open spec fn chosen_script(packaged: Seq<Option<Seq<char>>>, fallback: CandidateView) -> Option<
    Seq<char>,
> {
    match first_found(packaged) {
        Some(path) => Some(path),
        None => if fallback.present {
            Some(fallback.path)
        } else {
            None
        },
    }
}

/// The name of the environment variable that overrides the worker's
/// executable.
pub const NODE_OVERRIDE_VARIABLE: &'static str = "NAMEFIX_NODE";

/// The name under which the worker's executable is looked for on the search
/// path.
pub const NODE_PROGRAM: &'static str = "node";

/// The name of the worker's entry script among the packaged resources.
pub const BRIDGE_SCRIPT_NAME: &'static str = "service-bridge.mjs";

/// The path of the first candidate that is there.
pub fn first_present_path(candidates: &Vec<Candidate>) -> (path: Option<String>)
    ensures
        match path {
            Some(p) => first_present(candidates_view(candidates@)) == Some(p@),
            None => first_present(candidates_view(candidates@)) is None,
        },
{
    let ghost all = candidates_view(candidates@);
    let mut at: usize = 0;
    assert(all.subrange(0, all.len() as int) =~= all);
    while at < candidates.len()
        invariant
            at <= candidates.len(),
            all == candidates_view(candidates@),
            first_present(all) == first_present(all.subrange(at as int, all.len() as int)),
        decreases candidates.len() - at,
    {
        let ghost rest = all.subrange(at as int, all.len() as int);
        proof {
            assert(rest[0] == candidates@[at as int]@);
            assert(rest.drop_first() =~= all.subrange(at as int + 1, all.len() as int));
        }
        if candidates[at].present {
            return Some(candidates[at].path.clone());
        }
        at = at + 1;
    }
    assert(all.subrange(at as int, all.len() as int).len() == 0);
    None
}

/// The first of a list of lookups that found something.
pub fn first_found_path(lookups: &Vec<Option<String>>) -> (path: Option<String>)
    ensures
        match path {
            Some(p) => first_found(lookups_view(lookups@)) == Some(p@),
            None => first_found(lookups_view(lookups@)) is None,
        },
{
    let ghost all = lookups_view(lookups@);
    let mut at: usize = 0;
    assert(all.subrange(0, all.len() as int) =~= all);
    while at < lookups.len()
        invariant
            at <= lookups.len(),
            all == lookups_view(lookups@),
            first_found(all) == first_found(all.subrange(at as int, all.len() as int)),
        decreases lookups.len() - at,
    {
        let ghost rest = all.subrange(at as int, all.len() as int);
        proof {
            assert(rest[0] == all[at as int]);
            assert(rest.drop_first() =~= all.subrange(at as int + 1, all.len() as int));
        }
        match &lookups[at] {
            Some(found) => {
                return Some(found.clone());
            },
            None => {},
        }
        at = at + 1;
    }
    assert(all.subrange(at as int, all.len() as int).len() == 0);
    None
}

/// Chooses the executable that runs the worker.
///
/// An explicit override wins. Without one, what was found on the search
/// path is taken. Without that, the fallback locations are tried in their
/// order and the first that is there is taken. With none of them the answer
/// is `BinaryNotFound`.
pub fn node_command(
    explicit: Option<String>,
    discovered: Option<String>,
    fallbacks: &Vec<Candidate>,
) -> (binary: Result<String, BridgeError>)
    ensures
        match binary {
            Ok(path) => chosen_binary(
                match explicit {
                    Some(p) => Some(p@),
                    None => None,
                },
                match discovered {
                    Some(p) => Some(p@),
                    None => None,
                },
                candidates_view(fallbacks@),
            ) == Some(path@),
            Err(error) => chosen_binary(
                match explicit {
                    Some(p) => Some(p@),
                    None => None,
                },
                match discovered {
                    Some(p) => Some(p@),
                    None => None,
                },
                candidates_view(fallbacks@),
            ) is None && error@ == BridgeErrorView::BinaryNotFound,
        },
{
    match explicit {
        Some(path) => Ok(path),
        None => match discovered {
            Some(path) => Ok(path),
            None => match first_present_path(fallbacks) {
                Some(path) => Ok(path),
                None => Err(BridgeError::BinaryNotFound),
            },
        },
    }
}

/// Chooses the script that the worker runs.
///
/// `packaged` holds what the lookup among the packaged resources gave for
/// each candidate path, in the order in which they are tried; the first
/// that was found is taken. Without one, the build-relative fallback is
/// taken if it is there. Else the answer is `ScriptNotFound`.
pub fn resolve_bridge_script(packaged: &Vec<Option<String>>, fallback: &Candidate) -> (script:
    Result<String, BridgeError>)
    ensures
        match script {
            Ok(path) => chosen_script(lookups_view(packaged@), fallback@) == Some(path@),
            Err(error) => chosen_script(lookups_view(packaged@), fallback@) is None && error@
                == BridgeErrorView::ScriptNotFound,
        },
{
    match first_found_path(packaged) {
        Some(path) => Ok(path),
        None => {
            if fallback.present {
                Ok(fallback.path.clone())
            } else {
                Err(BridgeError::ScriptNotFound)
            }
        },
    }
}

} // verus!
