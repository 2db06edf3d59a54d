//! Step-wise resolution of a path to an absolute, canonical form.
//!
//! Resolving a path takes questions to the file system: what the canonical
//! form of a path is, and what the working directory is. This module asks
//! none of them itself. A [`Resolution`] says which question comes next, the
//! caller finds the answer and hands it back, and the resolution moves on,
//! until the path is resolved. A question that cannot be answered never
//! stops the resolution: it goes on with the best path it has.

use crate::text::{clean_file_path, cleaned};
use std::path::Path;
use vstd::prelude::*;

verus! {

/// Whether a path is absolute, as `Path::is_absolute` of the standard
/// library tells it by the rules of the platform the program is built for.
pub uninterp spec fn absolute_path(path: Seq<char>) -> bool;

/// The path `relative` adjoined to `base`, as `Path::join` of the standard
/// library makes it by the rules of the platform the program is built for;
/// `None` where the joined path is not valid Unicode.
pub uninterp spec fn joined_path(base: Seq<char>, relative: Seq<char>) -> Option<Seq<char>>;

/// Where a resolution stands.
#[derive(Clone, Copy, PartialEq, Eq, Debug, Structural)]
pub enum Phase {
    /// The canonical form of an absolute path is awaited.
    ProbeAbsolute,
    /// The canonical form of a relative path is awaited.
    ProbeRelative,
    /// The working directory is awaited, to join a relative path onto it.
    WorkingDir,
    /// The canonical form of the joined path is awaited.
    ProbeJoined,
    /// The path is resolved and nothing is awaited.
    Resolved,
}

/// What a resolution asks of its caller next.
#[derive(Clone, Copy, PartialEq, Eq, Debug, Structural)]
pub enum Request {
    /// The canonical form of the resolution's path.
    Canonicalize,
    /// The working directory.
    WorkingDir,
    /// Nothing: the resolution's path is the result.
    Nothing,
}

/// The mathematical state of a resolution: where it stands, and the path
/// it holds there. While a canonical form is awaited the path is the one
/// to canonicalize; while the working directory is awaited it is the
/// relative path to join; once resolved it is the result.
pub ghost struct ResolutionState {
    pub phase: Phase,
    pub path: Seq<char>,
}

impl ResolutionState {
    /// The state in which the resolution of a cleaned path begins.
    pub open spec fn start(cleaned: Seq<char>, absolute: bool) -> Self {
        ResolutionState {
            phase: if absolute {
                Phase::ProbeAbsolute
            } else {
                Phase::ProbeRelative
            },
            path: cleaned,
        }
    }

    /// The state of a resolution that ended with `path`.
    pub open spec fn resolved(path: Seq<char>) -> Self {
        ResolutionState { phase: Phase::Resolved, path }
    }

    /// The question that is open in this state.
    pub open spec fn request(self) -> Request {
        match self.phase {
            Phase::ProbeAbsolute | Phase::ProbeRelative | Phase::ProbeJoined => Request::Canonicalize,
            Phase::WorkingDir => Request::WorkingDir,
            Phase::Resolved => Request::Nothing,
        }
    }

    /// The state after the file system gave the canonical form of the path,
    /// or failed to (`None`). A canonical form ends the resolution. Without
    /// one, an absolute path and a joined path are the result as they are,
    /// and a relative path goes on to be joined onto the working directory.
    /// Where no canonical form is awaited the state stays as it is.
    pub open spec fn on_canonical(self, canonical: Option<Seq<char>>) -> Self {
        match self.phase {
            Phase::ProbeAbsolute | Phase::ProbeJoined => match canonical {
                Some(c) => Self::resolved(c),
                None => Self::resolved(self.path),
            },
            Phase::ProbeRelative => match canonical {
                Some(c) => Self::resolved(c),
                None => ResolutionState { phase: Phase::WorkingDir, path: self.path },
            },
            Phase::WorkingDir | Phase::Resolved => self,
        }
    }

    /// The state after the relative path was joined onto the working
    /// directory, or could not be (`None`): the joined path is probed next,
    /// and without one the relative path is the result. Where no working
    /// directory is awaited the state stays as it is.
    pub open spec fn on_joined(self, joined: Option<Seq<char>>) -> Self {
        match self.phase {
            Phase::WorkingDir => match joined {
                Some(j) => ResolutionState { phase: Phase::ProbeJoined, path: j },
                None => Self::resolved(self.path),
            },
            _ => self,
        }
    }

    /// The state after the working directory was given, or was unavailable
    /// (`None`): the state after the join of the held path onto it, and
    /// without a directory the state after a join that could not be made.
    pub open spec fn on_working_dir(self, dir: Option<Seq<char>>) -> Self {
        self.on_joined(
            match dir {
                Some(d) => joined_path(d, self.path),
                None => None,
            },
        )
    }
}

/// The path that a resolution ends with, given what the file system says:
/// `canonical` is the canonical form of the cleaned path, `joined` the
/// cleaned path joined onto the working directory, `canonical_joined` the
/// canonical form of that; each is `None` where it could not be had.
pub open spec fn outcome(
    cleaned: Seq<char>,
    absolute: bool,
    canonical: Option<Seq<char>>,
    joined: Option<Seq<char>>,
    canonical_joined: Option<Seq<char>>,
) -> Seq<char> {
    match (canonical, joined, canonical_joined) {
        (Some(c), _, _) => c,
        (None, _, _) if absolute => cleaned,
        (None, None, _) => cleaned,
        (None, Some(_), Some(c)) => c,
        (None, Some(j), None) => j,
    }
}

/// A path on its way to an absolute, canonical form.
#[derive(Debug)]
pub struct Resolution {
    phase: Phase,
    path: String,
}

impl View for Resolution {
    type V = ResolutionState;

    closed spec fn view(&self) -> ResolutionState {
        ResolutionState { phase: self.phase, path: self.path@ }
    }
}

/// Calls `Path::is_absolute` on `path`. The answer depends on the text of
/// the path alone and goes by the rules of the platform, which are not
/// spelled out: it is `absolute_path` of the argument.
#[verifier::external_body]
fn is_absolute(path: &str) -> (r: bool)
    ensures
        r == absolute_path(path@),
{
    Path::new(path).is_absolute()
}

/// Calls `Path::join` to adjoin `relative` to `base`, and hands the result
/// back if it is valid Unicode. The result depends on the two texts alone
/// and goes by the rules of the platform, which are not spelled out: it is
/// `joined_path` of the arguments.
#[verifier::external_body]
fn join(base: &str, relative: &str) -> (r: Option<String>)
    ensures
        r.deep_view() == joined_path(base@, relative@),
{
    Path::new(base).join(relative).into_os_string().into_string().ok()
}

impl Resolution {
    /// Begins the resolution of a cleaned path that is absolute or not, as
    /// `absolute` says.
    pub fn start(cleaned: String, absolute: bool) -> (r: Resolution)
        ensures
            r@ == ResolutionState::start(cleaned@, absolute),
    {
        let phase = if absolute {
            Phase::ProbeAbsolute
        } else {
            Phase::ProbeRelative
        };
        Resolution { phase, path: cleaned }
    }

    /// Where the resolution stands.
    pub fn phase(&self) -> (r: Phase)
        ensures
            r == self@.phase,
    {
        self.phase
    }

    /// The path that the resolution holds: the subject of its open
    /// question, or the result once it is resolved.
    pub fn path(&self) -> (r: &str)
        ensures
            r@ == self@.path,
    {
        self.path.as_str()
    }

    /// Gives up the resolution for the path that it holds.
    pub fn into_path(self) -> (r: String)
        ensures
            r@ == self@.path,
    {
        self.path
    }

    /// The question that the caller is to answer next.
    pub fn request(&self) -> (r: Request)
        ensures
            r == self@.request(),
    {
        match self.phase {
            Phase::ProbeAbsolute | Phase::ProbeRelative | Phase::ProbeJoined => Request::Canonicalize,
            Phase::WorkingDir => Request::WorkingDir,
            Phase::Resolved => Request::Nothing,
        }
    }

    /// Takes the canonical form of the resolution's path, or `None` where
    /// the file system gave none.
    pub fn on_canonical(self, canonical: Option<String>) -> (r: Resolution)
        ensures
            r@ == self@.on_canonical(canonical.deep_view()),
    {
        match self.phase {
            Phase::ProbeAbsolute | Phase::ProbeJoined => match canonical {
                Some(c) => Resolution { phase: Phase::Resolved, path: c },
                None => Resolution { phase: Phase::Resolved, path: self.path },
            },
            Phase::ProbeRelative => match canonical {
                Some(c) => Resolution { phase: Phase::Resolved, path: c },
                None => Resolution { phase: Phase::WorkingDir, path: self.path },
            },
            Phase::WorkingDir | Phase::Resolved => self,
        }
    }

    /// Takes the resolution's path joined onto the working directory, or
    /// `None` where there is no such path.
    pub fn on_joined(self, joined: Option<String>) -> (r: Resolution)
        ensures
            r@ == self@.on_joined(joined.deep_view()),
    {
        match self.phase {
            Phase::WorkingDir => match joined {
                Some(j) => Resolution { phase: Phase::ProbeJoined, path: j },
                None => Resolution { phase: Phase::Resolved, path: self.path },
            },
            _ => self,
        }
    }

    /// Takes the working directory, or `None` where it is unavailable, and
    /// joins the resolution's path onto it by the rules of the platform.
    /// The resolution goes on as `on_joined` does with the joined path, and
    /// without a working directory as it does without a joined path. Where
    /// no working directory is awaited nothing is joined.
    pub fn on_working_dir(self, dir: Option<String>) -> (r: Resolution)
        ensures
            r@ == self@.on_working_dir(dir.deep_view()),
    {
        match self.phase {
            Phase::WorkingDir => {
                let joined = match dir {
                    Some(d) => join(d.as_str(), self.path.as_str()),
                    None => None,
                };
                self.on_joined(joined)
            },
            _ => self,
        }
    }
}

/// Begins the resolution of a raw path: cleans it, and begins with the
/// probe of an absolute path or of a relative one, as the cleaned path is
/// absolute or not by the rules of the platform.
pub fn to_absolute_path(path: &str) -> (r: Resolution)
    ensures
        r@ == ResolutionState::start(cleaned(path@), absolute_path(cleaned(path@))),
{
    let subject = clean_file_path(path);
    let absolute = is_absolute(subject.as_str());
    Resolution::start(subject, absolute)
}

/// Whatever the file system says, three answers end a resolution, and it
/// ends with the path that `outcome` describes.
pub proof fn lemma_resolution_reaches_outcome(
    cleaned: Seq<char>,
    absolute: bool,
    canonical: Option<Seq<char>>,
    joined: Option<Seq<char>>,
    canonical_joined: Option<Seq<char>>,
)
    ensures
        ResolutionState::start(cleaned, absolute).on_canonical(canonical).on_joined(
            joined,
        ).on_canonical(canonical_joined) == ResolutionState::resolved(
            outcome(cleaned, absolute, canonical, joined, canonical_joined),
        ),
{
}

/// A path whose canonical form the file system gives resolves to that
/// form, at the first answer, be the path relative or absolute.
pub proof fn lemma_existing_path_resolves_to_canonical(
    cleaned: Seq<char>,
    absolute: bool,
    canonical: Seq<char>,
)
    ensures
        ResolutionState::start(cleaned, absolute).request() == Request::Canonicalize,
        ResolutionState::start(cleaned, absolute).path == cleaned,
        ResolutionState::start(cleaned, absolute).on_canonical(Some(canonical))
            == ResolutionState::resolved(canonical),
{
}

/// A relative path that has no canonical form, alone or joined onto the
/// working directory, resolves to the joined path as it is: the working
/// directory is asked for second, the path joined onto it is probed
/// third, and that joined path is the result.
pub proof fn lemma_missing_relative_path_resolves_to_joined(
    cleaned: Seq<char>,
    dir: Seq<char>,
    joined: Seq<char>,
)
    ensures
        ({
            let first = ResolutionState::start(cleaned, false);
            let second = first.on_canonical(None);
            let third = second.on_working_dir(Some(dir));
            &&& first.request() == Request::Canonicalize && first.path == cleaned
            &&& second.request() == Request::WorkingDir && second.path == cleaned
            &&& third == second.on_joined(joined_path(dir, cleaned))
            &&& joined_path(dir, cleaned) == Some(joined) ==> {
                &&& third.request() == Request::Canonicalize && third.path == joined
                &&& third.on_canonical(None) == ResolutionState::resolved(joined)
            }
        }),
{
}

/// Without a working directory, or where the join onto it gives no path,
/// a relative path that has no canonical form resolves to itself.
pub proof fn lemma_unjoined_relative_path_resolves_to_itself(
    cleaned: Seq<char>,
    dir: Option<Seq<char>>,
)
    ensures
        (dir matches Some(d) ==> joined_path(d, cleaned) is None) ==> ResolutionState::start(
            cleaned,
            false,
        ).on_canonical(None).on_working_dir(dir) == ResolutionState::resolved(cleaned),
{
}

} // verus!
