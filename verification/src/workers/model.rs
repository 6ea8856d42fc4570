//! What a search for the worker binaries asks, what it may answer, and what it finds on a host.

use crate::unix_path::{joined, parent};
use vstd::prelude::*;
use vstd::utf8::encode_utf8;

verus! {

/// The file name of the preparation worker.
pub const PREPARE_BINARY_NAME: &'static str = "polkadot-prepare-worker";

/// The file name of the execution worker.
pub const EXECUTE_BINARY_NAME: &'static str = "polkadot-execute-worker";

/// Where a packaged installation keeps the workers.
pub const LIB_DIR: &'static str = "/usr/lib/polkadot";

/// Where the node's own binary lies under an overriding root directory.
pub const OVERRIDE_EXE_DIR: &'static str = "usr/bin";

/// Where the packaged workers lie under an overriding root directory.
pub const OVERRIDE_LIB_DIR: &'static str = "usr/lib/polkadot";

/// Why no usable pair of workers was determined. `P` stands for a path, `S` for a text and `E`
/// for a failure of the host.
#[derive(Debug, PartialEq, Eq)]
pub enum Error<P, S, E> {
    /// No pair of worker binaries was found.
    MissingWorkerBinaries {
        given_workers_path: Option<P>,
        current_exe_path: P,
        workers_names: Option<(S, S)>,
    },
    /// The pair that was found cannot be executed.
    InvalidWorkerBinaries { prep_worker_path: P, exec_worker_path: P },
    /// A worker reports another version than the node.
    WorkerBinaryVersionMismatch { worker_version: S, node_version: S, worker_path: P },
    /// The host failed to answer.
    Io(E),
}

/// A question to the host.
#[derive(Debug, PartialEq, Eq)]
pub enum Query<P> {
    /// Is there an executable file at this path?
    IsExecutable(P),
    /// Is there anything at this path?
    Exists(P),
    /// Which file is the running program?
    CurrentExe,
    /// Which version does the worker at this path report?
    WorkerVersion(P),
}

/// What the host says to a question.
#[derive(Debug, PartialEq, Eq)]
pub enum Answer<P, S, E> {
    /// To `IsExecutable` and `Exists`.
    Flag(bool),
    /// To `CurrentExe`.
    ExePath(Result<P, E>),
    /// To `WorkerVersion`.
    Version(Result<S, E>),
}

/// What is looked for: the path that was passed in, the file names of the workers, and a root
/// directory that overrides where installations are looked for.
#[derive(Debug, PartialEq, Eq)]
pub struct Request<P, S> {
    pub given_workers_path: Option<P>,
    pub workers_names: Option<(S, S)>,
    pub tmp_dir: Option<P>,
}

/// How far the listing of worker pairs has come. `L` stands for a list of pairs of paths.
#[derive(Debug, PartialEq, Eq)]
pub enum Listing<P, S, L, E> {
    /// Is the given path itself an executable?
    AskGivenExecutable(P),
    /// Does the first of the pair under the given path exist?
    AskGivenPrep((P, P)),
    /// Does the second of that pair exist?
    AskGivenExec((P, P)),
    /// Where does the node's own binary lie?
    AskExePath,
    /// Does the first of the pair beside the node's binary exist?
    AskBinPrep((P, P)),
    /// Does the second, where the flag tells of the first?
    AskBinExec((P, P), bool),
    /// Does the first of the packaged pair exist, with what was found before?
    AskLibPrep(Option<(P, P)>, (P, P)),
    /// Does the second, where the flag tells of the first?
    AskLibExec(Option<(P, P)>, (P, P), bool),
    /// The listing is complete.
    Listed(Result<L, Error<P, S, E>>),
}

/// How far the determination of the final pair has come.
#[derive(Debug, PartialEq, Eq)]
pub enum Stage<P, S, L, E> {
    /// The pairs are being listed.
    Looking(Listing<P, S, L, E>),
    /// No pair was listed: where does the node's own binary lie?
    AskMissingExePath,
    /// Is the first of the pair an executable?
    AskPrepExecutable((P, P)),
    /// Is the second?
    AskExecExecutable((P, P)),
    /// Which version does the first report?
    AskPrepVersion((P, P), S),
    /// Which version does the second report?
    AskExecVersion((P, P), S),
    /// The search is over.
    Determined(Result<(P, P), Error<P, S, E>>),
}

/// An error as a value.
pub type ErrorView<E> = Error<Seq<u8>, Seq<char>, E>;

/// An answer as a value.
pub type AnswerView<E> = Answer<Seq<u8>, Seq<char>, E>;

/// A request as a value.
pub type RequestView = Request<Seq<u8>, Seq<char>>;

/// A listing as a value.
pub type ListingView<E> = Listing<Seq<u8>, Seq<char>, Seq<(Seq<u8>, Seq<u8>)>, E>;

/// A stage as a value.
pub type StageView<E> = Stage<Seq<u8>, Seq<char>, Seq<(Seq<u8>, Seq<u8>)>, E>;

/// The directory of the node's own binary under an overriding root directory.
pub open spec fn exe_override(tmp_dir: Option<Seq<u8>>) -> Option<Seq<u8>> {
    match tmp_dir {
        Some(root) => Some(joined(root, encode_utf8(OVERRIDE_EXE_DIR@))),
        None => None,
    }
}

/// The directory of the packaged workers under an overriding root directory.
pub open spec fn lib_override(tmp_dir: Option<Seq<u8>>) -> Option<Seq<u8>> {
    match tmp_dir {
        Some(root) => Some(joined(root, encode_utf8(OVERRIDE_LIB_DIR@))),
        None => None,
    }
}

/// The directory of the packaged workers.
pub open spec fn lib_dir(tmp_dir: Option<Seq<u8>>) -> Seq<u8> {
    match lib_override(tmp_dir) {
        Some(dir) => dir,
        None => encode_utf8(LIB_DIR@),
    }
}

/// The directory that the running program lies in, or the overriding one.
pub open spec fn exe_dir<E>(current_exe: Result<Seq<u8>, E>, tmp_dir: Option<Seq<u8>>) -> Result<
    Seq<u8>,
    ErrorView<E>,
> {
    match current_exe {
        Err(failure) => Err(Error::Io(failure)),
        Ok(exe) => match exe_override(tmp_dir) {
            Some(dir) => Ok(dir),
            None => Ok(
                match parent(exe) {
                    Some(dir) => dir,
                    None => exe,
                },
            ),
        },
    }
}

/// The two worker binaries in a directory, under the given or the usual names.
pub open spec fn worker_paths(dir: Seq<u8>, names: Option<(Seq<char>, Seq<char>)>) -> (
    Seq<u8>,
    Seq<u8>,
) {
    let (prep, exec) = match names {
        Some(given) => given,
        None => (PREPARE_BINARY_NAME@, EXECUTE_BINARY_NAME@),
    };
    (joined(dir, encode_utf8(prep)), joined(dir, encode_utf8(exec)))
}

/// What an operator should hear of while a search goes on.
#[derive(Debug, PartialEq, Eq)]
pub enum Notice<P> {
    /// The workers are looked for at the path that was passed in.
    GivenPath(P),
    /// A complete pair was found at a location.
    PairFound { prep_worker_path: P, exec_worker_path: P },
    /// One of a pair was found at a location, but not the other.
    HalfFound { found: P, missing: P },
    /// More than one pair was found. The search goes on with the first.
    SeveralFound { first: (P, P), second: (P, P) },
    /// The versions of the workers are not checked, as the node names none.
    VersionsUnchecked,
}

/// What there is to say of a pair, by which of its binaries exist.
pub open spec fn pair_notices(pair: (Seq<u8>, Seq<u8>), prep: bool, exec: bool) -> Seq<
    Notice<Seq<u8>>,
> {
    if prep && exec {
        seq![Notice::PairFound { prep_worker_path: pair.0, exec_worker_path: pair.1 }]
    } else if prep {
        seq![Notice::HalfFound { found: pair.0, missing: pair.1 }]
    } else if exec {
        seq![Notice::HalfFound { found: pair.1, missing: pair.0 }]
    } else {
        seq![]
    }
}

/// What an answer tells an operator where the search stands, in order.
pub open spec fn stage_notices<E>(
    node_version: Option<Seq<char>>,
    stage: StageView<E>,
    answer: AnswerView<E>,
) -> Seq<Notice<Seq<u8>>> {
    match (stage, answer) {
        (Stage::Looking(Listing::AskGivenExecutable(path)), Answer::Flag(_)) => seq![
            Notice::GivenPath(path),
        ],
        (Stage::Looking(Listing::AskBinExec(pair, prep)), Answer::Flag(exec)) => pair_notices(
            pair,
            prep,
            exec,
        ),
        (Stage::Looking(Listing::AskLibExec(found, pair, prep)), Answer::Flag(exec)) => {
            match found {
                Some(first) if prep && exec => pair_notices(pair, prep, exec).push(
                    Notice::SeveralFound { first, second: pair },
                ),
                _ => pair_notices(pair, prep, exec),
            }
        },
        (Stage::AskExecExecutable(_), Answer::Flag(true)) if node_version is None => seq![
            Notice::VersionsUnchecked,
        ],
        _ => seq![],
    }
}

/// What a host answers, as long as nothing on it changes.
pub struct Host<E> {
    pub exists: spec_fn(Seq<u8>) -> bool,
    pub is_executable: spec_fn(Seq<u8>) -> bool,
    pub current_exe: Result<Seq<u8>, E>,
    pub worker_version: spec_fn(Seq<u8>) -> Result<Seq<char>, E>,
}

impl<E> Host<E> {
    /// The answer to a question.
    pub open spec fn answer(self, query: Query<Seq<u8>>) -> AnswerView<E> {
        match query {
            Query::IsExecutable(path) => Answer::Flag((self.is_executable)(path)),
            Query::Exists(path) => Answer::Flag((self.exists)(path)),
            Query::CurrentExe => Answer::ExePath(self.current_exe),
            Query::WorkerVersion(path) => Answer::Version((self.worker_version)(path)),
        }
    }

    /// The pair as a list of one where both binaries exist, and nothing otherwise.
    pub open spec fn installed(self, pair: (Seq<u8>, Seq<u8>)) -> Seq<(Seq<u8>, Seq<u8>)> {
        if (self.exists)(pair.0) && (self.exists)(pair.1) {
            seq![pair]
        } else {
            seq![]
        }
    }

    /// All pairs of workers to consider on this host, the preferred one first.
    pub open spec fn listed(self, request: RequestView) -> Result<
        Seq<(Seq<u8>, Seq<u8>)>,
        ErrorView<E>,
    > {
        match request.given_workers_path {
            Some(path) => if (self.is_executable)(path) {
                Ok(seq![(path, path)])
            } else {
                Ok(self.installed(worker_paths(path, request.workers_names)))
            },
            None => match exe_dir(self.current_exe, request.tmp_dir) {
                Err(error) => Err(error),
                Ok(dir) => Ok(
                    self.installed(worker_paths(dir, request.workers_names)) + self.installed(
                        worker_paths(lib_dir(request.tmp_dir), request.workers_names),
                    ),
                ),
            },
        }
    }

    /// Whether the worker at `path` reports `node_version`; the error that comes of it if not.
    pub open spec fn version_error(self, path: Seq<u8>, node_version: Seq<char>) -> Option<
        ErrorView<E>,
    > {
        match (self.worker_version)(path) {
            Err(failure) => Some(Error::Io(failure)),
            Ok(worker_version) => if worker_version =~= node_version {
                None
            } else {
                Some(
                    Error::WorkerBinaryVersionMismatch {
                        worker_version,
                        node_version,
                        worker_path: path,
                    },
                )
            },
        }
    }

    /// What is wrong with a pair that was found, if anything.
    pub open spec fn pair_error(
        self,
        pair: (Seq<u8>, Seq<u8>),
        node_version: Option<Seq<char>>,
    ) -> Option<ErrorView<E>> {
        if !(self.is_executable)(pair.0) || !(self.is_executable)(pair.1) {
            Some(Error::InvalidWorkerBinaries { prep_worker_path: pair.0, exec_worker_path: pair.1 })
        } else {
            match node_version {
                None => None,
                Some(version) => match self.version_error(pair.0, version) {
                    Some(error) => Some(error),
                    None => self.version_error(pair.1, version),
                },
            }
        }
    }

    /// The pair of workers to use on this host, or why there is none.
    pub open spec fn determined(
        self,
        request: RequestView,
        node_version: Option<Seq<char>>,
    ) -> Result<(Seq<u8>, Seq<u8>), ErrorView<E>> {
        match self.listed(request) {
            Err(error) => Err(error),
            Ok(pairs) => if pairs.len() == 0 {
                match exe_dir(self.current_exe, request.tmp_dir) {
                    Err(error) => Err(error),
                    Ok(current_exe_path) => Err(
                        Error::MissingWorkerBinaries {
                            given_workers_path: request.given_workers_path,
                            current_exe_path,
                            workers_names: request.workers_names,
                        },
                    ),
                }
            } else {
                match self.pair_error(pairs[0], node_version) {
                    Some(error) => Err(error),
                    None => Ok(pairs[0]),
                }
            },
        }
    }
}

/// The pairs found at two locations, as one list.
pub open spec fn both_found(
    first: Option<(Seq<u8>, Seq<u8>)>,
    second: Option<(Seq<u8>, Seq<u8>)>,
) -> Seq<(Seq<u8>, Seq<u8>)> {
    (match first {
        Some(pair) => seq![pair],
        None => seq![],
    }) + (match second {
        Some(pair) => seq![pair],
        None => seq![],
    })
}

/// Where the listing of worker pairs begins.
pub open spec fn listing_start<E>(request: RequestView) -> ListingView<E> {
    match request.given_workers_path {
        Some(path) => Listing::AskGivenExecutable(path),
        None => Listing::AskExePath,
    }
}

/// What the listing asks next.
pub open spec fn listing_query<E>(listing: ListingView<E>) -> Option<Query<Seq<u8>>> {
    match listing {
        Listing::AskGivenExecutable(path) => Some(Query::IsExecutable(path)),
        Listing::AskGivenPrep(pair) => Some(Query::Exists(pair.0)),
        Listing::AskGivenExec(pair) => Some(Query::Exists(pair.1)),
        Listing::AskExePath => Some(Query::CurrentExe),
        Listing::AskBinPrep(pair) => Some(Query::Exists(pair.0)),
        Listing::AskBinExec(pair, _) => Some(Query::Exists(pair.1)),
        Listing::AskLibPrep(_, pair) => Some(Query::Exists(pair.0)),
        Listing::AskLibExec(_, pair, _) => Some(Query::Exists(pair.1)),
        Listing::Listed(_) => None,
    }
}

/// Where an answer takes the listing. An answer to another question changes nothing.
pub open spec fn listing_step<E>(
    request: RequestView,
    listing: ListingView<E>,
    answer: AnswerView<E>,
) -> ListingView<E> {
    match (listing, answer) {
        (Listing::AskGivenExecutable(path), Answer::Flag(yes)) => if yes {
            Listing::Listed(Ok(seq![(path, path)]))
        } else {
            Listing::AskGivenPrep(worker_paths(path, request.workers_names))
        },
        (Listing::AskGivenPrep(pair), Answer::Flag(yes)) => if yes {
            Listing::AskGivenExec(pair)
        } else {
            Listing::Listed(Ok(both_found(None, None)))
        },
        (Listing::AskGivenExec(pair), Answer::Flag(yes)) => Listing::Listed(
            Ok(
                both_found(
                    if yes {
                        Some(pair)
                    } else {
                        None
                    },
                    None,
                ),
            ),
        ),
        (Listing::AskExePath, Answer::ExePath(exe)) => match exe_dir(exe, request.tmp_dir) {
            Err(error) => Listing::Listed(Err(error)),
            Ok(dir) => Listing::AskBinPrep(worker_paths(dir, request.workers_names)),
        },
        (Listing::AskBinPrep(pair), Answer::Flag(prep)) => Listing::AskBinExec(pair, prep),
        (Listing::AskBinExec(pair, prep), Answer::Flag(exec)) => Listing::AskLibPrep(
            if prep && exec {
                Some(pair)
            } else {
                None
            },
            worker_paths(lib_dir(request.tmp_dir), request.workers_names),
        ),
        (Listing::AskLibPrep(found, pair), Answer::Flag(prep)) => Listing::AskLibExec(
            found,
            pair,
            prep,
        ),
        (Listing::AskLibExec(found, pair, prep), Answer::Flag(exec)) => Listing::Listed(
            Ok(
                both_found(
                    found,
                    if prep && exec {
                        Some(pair)
                    } else {
                        None
                    },
                ),
            ),
        ),
        _ => listing,
    }
}

/// The stage that follows once the pairs are listed; before that, the listing goes on.
pub open spec fn after_listing<E>(listing: ListingView<E>) -> StageView<E> {
    match listing {
        Listing::Listed(Err(error)) => Stage::Determined(Err(error)),
        Listing::Listed(Ok(pairs)) => if pairs.len() == 0 {
            Stage::AskMissingExePath
        } else {
            Stage::AskPrepExecutable(pairs[0])
        },
        _ => Stage::Looking(listing),
    }
}

/// What the search asks next.
pub open spec fn stage_query<E>(stage: StageView<E>) -> Option<Query<Seq<u8>>> {
    match stage {
        Stage::Looking(listing) => listing_query(listing),
        Stage::AskMissingExePath => Some(Query::CurrentExe),
        Stage::AskPrepExecutable(pair) => Some(Query::IsExecutable(pair.0)),
        Stage::AskExecExecutable(pair) => Some(Query::IsExecutable(pair.1)),
        Stage::AskPrepVersion(pair, _) => Some(Query::WorkerVersion(pair.0)),
        Stage::AskExecVersion(pair, _) => Some(Query::WorkerVersion(pair.1)),
        Stage::Determined(_) => None,
    }
}

/// Where an answer takes the search. An answer to another question changes nothing.
pub open spec fn stage_step<E>(
    request: RequestView,
    node_version: Option<Seq<char>>,
    stage: StageView<E>,
    answer: AnswerView<E>,
) -> StageView<E> {
    match (stage, answer) {
        (Stage::Looking(listing), _) => after_listing(listing_step(request, listing, answer)),
        (Stage::AskMissingExePath, Answer::ExePath(exe)) => Stage::Determined(
            Err(
                match exe_dir(exe, request.tmp_dir) {
                    Err(error) => error,
                    Ok(current_exe_path) => Error::MissingWorkerBinaries {
                        given_workers_path: request.given_workers_path,
                        current_exe_path,
                        workers_names: request.workers_names,
                    },
                },
            ),
        ),
        (Stage::AskPrepExecutable(pair), Answer::Flag(yes)) => if yes {
            Stage::AskExecExecutable(pair)
        } else {
            Stage::Determined(
                Err(
                    Error::InvalidWorkerBinaries {
                        prep_worker_path: pair.0,
                        exec_worker_path: pair.1,
                    },
                ),
            )
        },
        (Stage::AskExecExecutable(pair), Answer::Flag(yes)) => if yes {
            match node_version {
                Some(version) => Stage::AskPrepVersion(pair, version),
                None => Stage::Determined(Ok(pair)),
            }
        } else {
            Stage::Determined(
                Err(
                    Error::InvalidWorkerBinaries {
                        prep_worker_path: pair.0,
                        exec_worker_path: pair.1,
                    },
                ),
            )
        },
        (Stage::AskPrepVersion(pair, version), Answer::Version(reported)) => match reported {
            Err(failure) => Stage::Determined(Err(Error::Io(failure))),
            Ok(worker_version) => if worker_version =~= version {
                Stage::AskExecVersion(pair, version)
            } else {
                Stage::Determined(
                    Err(
                        Error::WorkerBinaryVersionMismatch {
                            worker_version,
                            node_version: version,
                            worker_path: pair.0,
                        },
                    ),
                )
            },
        },
        (Stage::AskExecVersion(pair, version), Answer::Version(reported)) => match reported {
            Err(failure) => Stage::Determined(Err(Error::Io(failure))),
            Ok(worker_version) => if worker_version =~= version {
                Stage::Determined(Ok(pair))
            } else {
                Stage::Determined(
                    Err(
                        Error::WorkerBinaryVersionMismatch {
                            worker_version,
                            node_version: version,
                            worker_path: pair.1,
                        },
                    ),
                )
            },
        },
        _ => stage,
    }
}

} // verus!
