//! The searches for the worker binaries, as machines that ask the host one question at a time.

use crate::unix_path::{join, pop, to_bytes};
use crate::workers::model::{
    after_listing, both_found, exe_dir, exe_override, lib_dir, lib_override, listing_query,
    listing_start, listing_step, pair_notices, stage_notices, stage_query, stage_step, worker_paths,
    Answer, AnswerView, Error, ErrorView, Listing, ListingView, Notice, Query, Request,
    RequestView, Stage, StageView, EXECUTE_BINARY_NAME, LIB_DIR, OVERRIDE_EXE_DIR,
    OVERRIDE_LIB_DIR, PREPARE_BINARY_NAME,
};
use vstd::prelude::*;

verus! {

/// The two worker binaries: the one that prepares and the one that executes.
pub type WorkerPair = (Vec<u8>, Vec<u8>);

/// Why no usable pair of workers was determined.
pub type SearchError<E> = Error<Vec<u8>, String, E>;

/// A path, if there is one, as its bytes.
pub open spec fn path_view(path: Option<Vec<u8>>) -> Option<Seq<u8>> {
    match path {
        Some(bytes) => Some(bytes@),
        None => None,
    }
}

/// A text, if there is one, as its characters.
pub open spec fn text_view(text: Option<String>) -> Option<Seq<char>> {
    match text {
        Some(string) => Some(string@),
        None => None,
    }
}

/// The names of the workers, if there are any, as their characters.
pub open spec fn names_view(names: Option<(String, String)>) -> Option<(Seq<char>, Seq<char>)> {
    match names {
        Some((prep, exec)) => Some((prep@, exec@)),
        None => None,
    }
}

/// A pair of paths as their bytes.
pub open spec fn pair_view(pair: WorkerPair) -> (Seq<u8>, Seq<u8>) {
    (pair.0@, pair.1@)
}

/// A pair of paths, if there is one, as their bytes.
pub open spec fn found_view(found: Option<WorkerPair>) -> Option<(Seq<u8>, Seq<u8>)> {
    match found {
        Some(pair) => Some(pair_view(pair)),
        None => None,
    }
}

/// A list of pairs of paths as their bytes.
pub open spec fn pairs_view(pairs: Seq<WorkerPair>) -> Seq<(Seq<u8>, Seq<u8>)> {
    Seq::new(pairs.len(), |i: int| pair_view(pairs[i]))
}

/// A question, if there is one, with its path as bytes.
pub open spec fn query_view(query: Option<Query<Vec<u8>>>) -> Option<Query<Seq<u8>>> {
    match query {
        Some(Query::IsExecutable(path)) => Some(Query::IsExecutable(path@)),
        Some(Query::Exists(path)) => Some(Query::Exists(path@)),
        Some(Query::CurrentExe) => Some(Query::CurrentExe),
        Some(Query::WorkerVersion(path)) => Some(Query::WorkerVersion(path@)),
        None => None,
    }
}

/// A notice with its paths as bytes.
pub open spec fn notice_view(notice: Notice<Vec<u8>>) -> Notice<Seq<u8>> {
    match notice {
        Notice::GivenPath(path) => Notice::GivenPath(path@),
        Notice::PairFound { prep_worker_path, exec_worker_path } => Notice::PairFound {
            prep_worker_path: prep_worker_path@,
            exec_worker_path: exec_worker_path@,
        },
        Notice::HalfFound { found, missing } => Notice::HalfFound {
            found: found@,
            missing: missing@,
        },
        Notice::SeveralFound { first, second } => Notice::SeveralFound {
            first: pair_view(first),
            second: pair_view(second),
        },
        Notice::VersionsUnchecked => Notice::VersionsUnchecked,
    }
}

/// A list of notices with their paths as bytes.
pub open spec fn notices_view(notices: Seq<Notice<Vec<u8>>>) -> Seq<Notice<Seq<u8>>> {
    Seq::new(notices.len(), |i: int| notice_view(notices[i]))
}

/// A directory as its bytes, or the error as a value.
pub open spec fn dir_view<E>(dir: Result<Vec<u8>, SearchError<E>>) -> Result<Seq<u8>, ErrorView<E>> {
    match dir {
        Ok(path) => Ok(path@),
        Err(error) => Err(error@),
    }
}

impl<E> View for Error<Vec<u8>, String, E> {
    type V = ErrorView<E>;

    open spec fn view(&self) -> ErrorView<E> {
        match *self {
            Error::MissingWorkerBinaries {
                given_workers_path,
                current_exe_path,
                workers_names,
            } => Error::MissingWorkerBinaries {
                given_workers_path: path_view(given_workers_path),
                current_exe_path: current_exe_path@,
                workers_names: names_view(workers_names),
            },
            Error::InvalidWorkerBinaries {
                prep_worker_path,
                exec_worker_path,
            } => Error::InvalidWorkerBinaries {
                prep_worker_path: prep_worker_path@,
                exec_worker_path: exec_worker_path@,
            },
            Error::WorkerBinaryVersionMismatch {
                worker_version,
                node_version,
                worker_path,
            } => Error::WorkerBinaryVersionMismatch {
                worker_version: worker_version@,
                node_version: node_version@,
                worker_path: worker_path@,
            },
            Error::Io(failure) => Error::Io(failure),
        }
    }
}

impl<E> View for Answer<Vec<u8>, String, E> {
    type V = AnswerView<E>;

    open spec fn view(&self) -> AnswerView<E> {
        match *self {
            Answer::Flag(flag) => Answer::Flag(flag),
            Answer::ExePath(Ok(path)) => Answer::ExePath(Ok(path@)),
            Answer::ExePath(Err(failure)) => Answer::ExePath(Err(failure)),
            Answer::Version(Ok(version)) => Answer::Version(Ok(version@)),
            Answer::Version(Err(failure)) => Answer::Version(Err(failure)),
        }
    }
}

impl View for Request<Vec<u8>, String> {
    type V = RequestView;

    open spec fn view(&self) -> RequestView {
        Request {
            given_workers_path: path_view(self.given_workers_path),
            workers_names: names_view(self.workers_names),
            tmp_dir: path_view(self.tmp_dir),
        }
    }
}

impl<E> View for Listing<Vec<u8>, String, Vec<WorkerPair>, E> {
    type V = ListingView<E>;

    open spec fn view(&self) -> ListingView<E> {
        match *self {
            Listing::AskGivenExecutable(path) => Listing::AskGivenExecutable(path@),
            Listing::AskGivenPrep(pair) => Listing::AskGivenPrep(pair_view(pair)),
            Listing::AskGivenExec(pair) => Listing::AskGivenExec(pair_view(pair)),
            Listing::AskExePath => Listing::AskExePath,
            Listing::AskBinPrep(pair) => Listing::AskBinPrep(pair_view(pair)),
            Listing::AskBinExec(pair, prep) => Listing::AskBinExec(pair_view(pair), prep),
            Listing::AskLibPrep(found, pair) => Listing::AskLibPrep(
                found_view(found),
                pair_view(pair),
            ),
            Listing::AskLibExec(found, pair, prep) => Listing::AskLibExec(
                found_view(found),
                pair_view(pair),
                prep,
            ),
            Listing::Listed(Ok(pairs)) => Listing::Listed(Ok(pairs_view(pairs@))),
            Listing::Listed(Err(error)) => Listing::Listed(Err(error@)),
        }
    }
}

impl<E> View for Stage<Vec<u8>, String, Vec<WorkerPair>, E> {
    type V = StageView<E>;

    open spec fn view(&self) -> StageView<E> {
        match *self {
            Stage::Looking(listing) => Stage::Looking(listing@),
            Stage::AskMissingExePath => Stage::AskMissingExePath,
            Stage::AskPrepExecutable(pair) => Stage::AskPrepExecutable(pair_view(pair)),
            Stage::AskExecExecutable(pair) => Stage::AskExecExecutable(pair_view(pair)),
            Stage::AskPrepVersion(pair, version) => Stage::AskPrepVersion(
                pair_view(pair),
                version@,
            ),
            Stage::AskExecVersion(pair, version) => Stage::AskExecVersion(
                pair_view(pair),
                version@,
            ),
            Stage::Determined(Ok(pair)) => Stage::Determined(Ok(pair_view(pair))),
            Stage::Determined(Err(error)) => Stage::Determined(Err(error@)),
        }
    }
}

fn copy_path(path: &Vec<u8>) -> (copy: Vec<u8>)
    ensures
        copy@ == path@,
{
    to_bytes(path.as_slice())
}

/// The directory of the node's own binary under an overriding root directory.
pub fn workers_exe_path_override(tmp_dir: &Option<Vec<u8>>) -> (dir: Option<Vec<u8>>)
    ensures
        path_view(dir) == exe_override(path_view(*tmp_dir)),
{
    match tmp_dir {
        Some(root) => Some(join(root.as_slice(), OVERRIDE_EXE_DIR.as_bytes())),
        None => None,
    }
}

/// The directory of the packaged workers under an overriding root directory.
pub fn workers_lib_path_override(tmp_dir: &Option<Vec<u8>>) -> (dir: Option<Vec<u8>>)
    ensures
        path_view(dir) == lib_override(path_view(*tmp_dir)),
{
    match tmp_dir {
        Some(root) => Some(join(root.as_slice(), OVERRIDE_LIB_DIR.as_bytes())),
        None => None,
    }
}

/// The directory of the node's own binary, from the path of the running program.
pub fn get_exe_path<E>(
    current_exe: Result<Vec<u8>, E>,
    tmp_dir: &Option<Vec<u8>>,
) -> (dir: Result<Vec<u8>, SearchError<E>>)
    ensures
        dir_view(dir) == exe_dir::<E>(
            match current_exe {
                Ok(path) => Ok(path@),
                Err(failure) => Err(failure),
            },
            path_view(*tmp_dir),
        ),
{
    match current_exe {
        Err(failure) => Err(Error::Io(failure)),
        Ok(exe) => {
            let mut exe_path = exe;
            // A program always lies in some directory; a path without one stays as it is.
            let _ = pop(&mut exe_path);
            match workers_exe_path_override(tmp_dir) {
                Some(dir) => Ok(dir),
                None => Ok(exe_path),
            }
        },
    }
}

/// The two worker binaries in a directory, under the given or the usual names.
pub fn build_worker_paths(
    worker_dir: &Vec<u8>,
    workers_names: &Option<(String, String)>,
) -> (pair: WorkerPair)
    ensures
        pair_view(pair) == worker_paths(worker_dir@, names_view(*workers_names)),
{
    match workers_names {
        Some((prep, exec)) => (
            join(worker_dir.as_slice(), prep.as_str().as_bytes()),
            join(worker_dir.as_slice(), exec.as_str().as_bytes()),
        ),
        None => (
            join(worker_dir.as_slice(), PREPARE_BINARY_NAME.as_bytes()),
            join(worker_dir.as_slice(), EXECUTE_BINARY_NAME.as_bytes()),
        ),
    }
}

/// The directory of the packaged workers.
fn lib_path(tmp_dir: &Option<Vec<u8>>) -> (dir: Vec<u8>)
    ensures
        dir@ == lib_dir(path_view(*tmp_dir)),
{
    match workers_lib_path_override(tmp_dir) {
        Some(dir) => dir,
        None => to_bytes(LIB_DIR.as_bytes()),
    }
}

fn copy_names(names: &Option<(String, String)>) -> (copy: Option<(String, String)>)
    ensures
        names_view(copy) == names_view(*names),
{
    match names {
        Some((prep, exec)) => Some((prep.clone(), exec.clone())),
        None => None,
    }
}

/// The question that a listing stands at.
fn ask_listing<E>(listing: &Listing<Vec<u8>, String, Vec<WorkerPair>, E>) -> (query: Option<
    Query<Vec<u8>>,
>)
    ensures
        query_view(query) == listing_query(listing@),
{
    match listing {
        Listing::AskGivenExecutable(path) => Some(Query::IsExecutable(copy_path(path))),
        Listing::AskGivenPrep(pair) => Some(Query::Exists(copy_path(&pair.0))),
        Listing::AskGivenExec(pair) => Some(Query::Exists(copy_path(&pair.1))),
        Listing::AskExePath => Some(Query::CurrentExe),
        Listing::AskBinPrep(pair) => Some(Query::Exists(copy_path(&pair.0))),
        Listing::AskBinExec(pair, _) => Some(Query::Exists(copy_path(&pair.1))),
        Listing::AskLibPrep(_, pair) => Some(Query::Exists(copy_path(&pair.0))),
        Listing::AskLibExec(_, pair, _) => Some(Query::Exists(copy_path(&pair.1))),
        Listing::Listed(_) => None,
    }
}

/// The pairs found at two locations, as one list.
fn collect(first: Option<WorkerPair>, second: Option<WorkerPair>) -> (pairs: Vec<WorkerPair>)
    ensures
        pairs_view(pairs@) == both_found(found_view(first), found_view(second)),
{
    let mut pairs: Vec<WorkerPair> = Vec::new();
    if let Some(pair) = first {
        pairs.push(pair);
    }
    if let Some(pair) = second {
        pairs.push(pair);
    }
    assert(pairs_view(pairs@) =~= both_found(found_view(first), found_view(second)));
    pairs
}

/// Takes a listing on by one answer.
fn advance_listing<E>(
    request: &Request<Vec<u8>, String>,
    listing: Listing<Vec<u8>, String, Vec<WorkerPair>, E>,
    answer: Answer<Vec<u8>, String, E>,
) -> (next: Listing<Vec<u8>, String, Vec<WorkerPair>, E>)
    ensures
        next@ == listing_step(request@, listing@, answer@),
{
    match (listing, answer) {
        (Listing::AskGivenExecutable(path), Answer::Flag(yes)) => {
            if yes {
                let pair: WorkerPair = (copy_path(&path), path);
                let pairs: Vec<WorkerPair> = collect(Some(pair), None);
                assert(pairs_view(pairs@) =~= seq![(path@, path@)]);
                Listing::Listed(Ok(pairs))
            } else {
                Listing::AskGivenPrep(build_worker_paths(&path, &request.workers_names))
            }
        },
        (Listing::AskGivenPrep(pair), Answer::Flag(yes)) => {
            if yes {
                Listing::AskGivenExec(pair)
            } else {
                Listing::Listed(Ok(collect(None, None)))
            }
        },
        (Listing::AskGivenExec(pair), Answer::Flag(yes)) => {
            if yes {
                Listing::Listed(Ok(collect(Some(pair), None)))
            } else {
                Listing::Listed(Ok(collect(None, None)))
            }
        },
        (Listing::AskExePath, Answer::ExePath(exe)) => {
            match get_exe_path(exe, &request.tmp_dir) {
                Err(error) => Listing::Listed(Err(error)),
                Ok(dir) => Listing::AskBinPrep(build_worker_paths(&dir, &request.workers_names)),
            }
        },
        (Listing::AskBinPrep(pair), Answer::Flag(prep)) => Listing::AskBinExec(pair, prep),
        (Listing::AskBinExec(pair, prep), Answer::Flag(exec)) => {
            let lib_pair: WorkerPair = build_worker_paths(
                &lib_path(&request.tmp_dir),
                &request.workers_names,
            );
            if prep && exec {
                Listing::AskLibPrep(Some(pair), lib_pair)
            } else {
                Listing::AskLibPrep(None, lib_pair)
            }
        },
        (Listing::AskLibPrep(found, pair), Answer::Flag(prep)) => {
            Listing::AskLibExec(found, pair, prep)
        },
        (Listing::AskLibExec(found, pair, prep), Answer::Flag(exec)) => {
            if prep && exec {
                Listing::Listed(Ok(collect(found, Some(pair))))
            } else {
                Listing::Listed(Ok(collect(found, None)))
            }
        },
        (unanswered, _) => unanswered,
    }
}

/// A listing of the worker pairs to consider, in the order of preference.
pub struct WorkerListing<E> {
    pub request: Request<Vec<u8>, String>,
    pub listing: Listing<Vec<u8>, String, Vec<WorkerPair>, E>,
}

/// Begins to list the pairs of workers: those at the given path, or at all valid locations.
pub fn list_workers_paths<E>(
    given_workers_path: Option<Vec<u8>>,
    workers_names: Option<(String, String)>,
    tmp_dir: Option<Vec<u8>>,
) -> (start: WorkerListing<E>)
    ensures
        start.request@ == (Request {
            given_workers_path: path_view(given_workers_path),
            workers_names: names_view(workers_names),
            tmp_dir: path_view(tmp_dir),
        }),
        start.listing@ == listing_start::<E>(start.request@),
{
    let listing = match &given_workers_path {
        Some(path) => Listing::AskGivenExecutable(copy_path(path)),
        None => Listing::AskExePath,
    };
    WorkerListing { request: Request { given_workers_path, workers_names, tmp_dir }, listing }
}

impl<E> WorkerListing<E> {
    /// The next question; `None` once the list is complete.
    pub fn query(&self) -> (query: Option<Query<Vec<u8>>>)
        ensures
            query_view(query) == listing_query(self.listing@),
    {
        ask_listing(&self.listing)
    }

    /// Goes on with the answer to the question. An answer to another question changes nothing.
    pub fn answer(self, answer: Answer<Vec<u8>, String, E>) -> (next: Self)
        ensures
            next.request == self.request,
            next.listing@ == listing_step(self.request@, self.listing@, answer@),
    {
        let listing = advance_listing(&self.request, self.listing, answer);
        WorkerListing { request: self.request, listing }
    }
}

/// A search for the one pair of workers to use.
pub struct WorkerSearch<E> {
    pub request: Request<Vec<u8>, String>,
    pub node_version: Option<String>,
    pub stage: Stage<Vec<u8>, String, Vec<WorkerPair>, E>,
}

/// Begins to determine the final pair of workers: lists the pairs, takes the first, and checks
/// that both binaries are executable and report the version of the node where one is given.
pub fn determine_workers_paths<E>(
    given_workers_path: Option<Vec<u8>>,
    workers_names: Option<(String, String)>,
    node_version: Option<String>,
    tmp_dir: Option<Vec<u8>>,
) -> (start: WorkerSearch<E>)
    ensures
        start.request@ == (Request {
            given_workers_path: path_view(given_workers_path),
            workers_names: names_view(workers_names),
            tmp_dir: path_view(tmp_dir),
        }),
        start.node_version == node_version,
        start.stage@ == Stage::Looking(listing_start::<E>(start.request@)),
{
    let start: WorkerListing<E> = list_workers_paths(given_workers_path, workers_names, tmp_dir);
    WorkerSearch { request: start.request, node_version, stage: Stage::Looking(start.listing) }
}

fn copy_pair(pair: &WorkerPair) -> (copy: WorkerPair)
    ensures
        pair_view(copy) == pair_view(*pair),
{
    (copy_path(&pair.0), copy_path(&pair.1))
}

/// What there is to say of a pair, by which of its binaries exist.
fn notice_pair(pair: &WorkerPair, prep: bool, exec: bool) -> (notices: Vec<Notice<Vec<u8>>>)
    ensures
        notices_view(notices@) == pair_notices(pair_view(*pair), prep, exec),
{
    let mut notices: Vec<Notice<Vec<u8>>> = Vec::new();
    if prep && exec {
        notices.push(
            Notice::PairFound {
                prep_worker_path: copy_path(&pair.0),
                exec_worker_path: copy_path(&pair.1),
            },
        );
    } else if prep {
        notices.push(
            Notice::HalfFound { found: copy_path(&pair.0), missing: copy_path(&pair.1) },
        );
    } else if exec {
        notices.push(
            Notice::HalfFound { found: copy_path(&pair.1), missing: copy_path(&pair.0) },
        );
    }
    assert(notices_view(notices@) =~= pair_notices(pair_view(*pair), prep, exec));
    notices
}

fn copy_given(path: &Option<Vec<u8>>) -> (copy: Option<Vec<u8>>)
    ensures
        path_view(copy) == path_view(*path),
{
    match path {
        Some(bytes) => Some(copy_path(bytes)),
        None => None,
    }
}

/// The stage that follows once the pairs are listed.
fn leave_listing<E>(listing: Listing<Vec<u8>, String, Vec<WorkerPair>, E>) -> (stage: Stage<
    Vec<u8>,
    String,
    Vec<WorkerPair>,
    E,
>)
    ensures
        stage@ == after_listing(listing@),
{
    match listing {
        Listing::Listed(Err(error)) => Stage::Determined(Err(error)),
        Listing::Listed(Ok(pairs)) => {
            let mut remaining = pairs;
            if remaining.len() == 0 {
                Stage::AskMissingExePath
            } else {
                let pair: WorkerPair = remaining.swap_remove(0);
                assert(pairs_view(pairs@)[0] == pair_view(pair));
                Stage::AskPrepExecutable(pair)
            }
        },
        going_on => Stage::Looking(going_on),
    }
}

impl<E> WorkerSearch<E> {
    /// The next question; `None` once the search is over.
    pub fn query(&self) -> (query: Option<Query<Vec<u8>>>)
        ensures
            query_view(query) == stage_query(self.stage@),
    {
        match &self.stage {
            Stage::Looking(listing) => ask_listing(listing),
            Stage::AskMissingExePath => Some(Query::CurrentExe),
            Stage::AskPrepExecutable(pair) => Some(Query::IsExecutable(copy_path(&pair.0))),
            Stage::AskExecExecutable(pair) => Some(Query::IsExecutable(copy_path(&pair.1))),
            Stage::AskPrepVersion(pair, _) => Some(Query::WorkerVersion(copy_path(&pair.0))),
            Stage::AskExecVersion(pair, _) => Some(Query::WorkerVersion(copy_path(&pair.1))),
            Stage::Determined(_) => None,
        }
    }

    /// What the answer to the question tells an operator, in order.
    pub fn notices(&self, answer: &Answer<Vec<u8>, String, E>) -> (notices: Vec<Notice<Vec<u8>>>)
        ensures
            notices_view(notices@) == stage_notices(
                text_view(self.node_version),
                self.stage@,
                answer@,
            ),
    {
        let mut notices: Vec<Notice<Vec<u8>>> = Vec::new();
        match (&self.stage, answer) {
            (Stage::Looking(Listing::AskGivenExecutable(path)), Answer::Flag(_)) => {
                notices.push(Notice::GivenPath(copy_path(path)));
            },
            (Stage::Looking(Listing::AskBinExec(pair, prep)), Answer::Flag(exec)) => {
                notices = notice_pair(pair, *prep, *exec);
            },
            (Stage::Looking(Listing::AskLibExec(found, pair, prep)), Answer::Flag(exec)) => {
                notices = notice_pair(pair, *prep, *exec);
                if let Some(first) = found {
                    if *prep && *exec {
                        let ghost before = notices@;
                        notices.push(
                            Notice::SeveralFound {
                                first: copy_pair(first),
                                second: copy_pair(pair),
                            },
                        );
                        assert(notices_view(notices@) =~= notices_view(before).push(
                            notice_view(notices@.last()),
                        ));
                    }
                }
            },
            (Stage::AskExecExecutable(_), Answer::Flag(yes)) => {
                if *yes && self.node_version.is_none() {
                    notices.push(Notice::VersionsUnchecked);
                }
            },
            _ => {},
        }
        assert(notices_view(notices@) =~= stage_notices(
            text_view(self.node_version),
            self.stage@,
            answer@,
        ));
        notices
    }

    /// Goes on with the answer to the question. An answer to another question changes nothing.
    pub fn answer(self, answer: Answer<Vec<u8>, String, E>) -> (next: Self)
        ensures
            next.request == self.request,
            next.node_version == self.node_version,
            next.stage@ == stage_step(
                self.request@,
                text_view(self.node_version),
                self.stage@,
                answer@,
            ),
    {
        let request = self.request;
        let node_version = self.node_version;
        let stage = match (self.stage, answer) {
            (Stage::Looking(listing), given) => leave_listing(
                advance_listing(&request, listing, given),
            ),
            (Stage::AskMissingExePath, Answer::ExePath(exe)) => {
                match get_exe_path(exe, &request.tmp_dir) {
                    Err(error) => Stage::Determined(Err(error)),
                    Ok(current_exe_path) => Stage::Determined(
                        Err(
                            Error::MissingWorkerBinaries {
                                given_workers_path: copy_given(&request.given_workers_path),
                                current_exe_path,
                                workers_names: copy_names(&request.workers_names),
                            },
                        ),
                    ),
                }
            },
            (Stage::AskPrepExecutable(pair), Answer::Flag(yes)) => {
                if yes {
                    Stage::AskExecExecutable(pair)
                } else {
                    Stage::Determined(
                        Err(
                            Error::InvalidWorkerBinaries {
                                prep_worker_path: pair.0,
                                exec_worker_path: pair.1,
                            },
                        ),
                    )
                }
            },
            (Stage::AskExecExecutable(pair), Answer::Flag(yes)) => {
                if yes {
                    match &node_version {
                        Some(version) => Stage::AskPrepVersion(pair, version.clone()),
                        None => Stage::Determined(Ok(pair)),
                    }
                } else {
                    Stage::Determined(
                        Err(
                            Error::InvalidWorkerBinaries {
                                prep_worker_path: pair.0,
                                exec_worker_path: pair.1,
                            },
                        ),
                    )
                }
            },
            (Stage::AskPrepVersion(pair, version), Answer::Version(reported)) => {
                match reported {
                    Err(failure) => Stage::Determined(Err(Error::Io(failure))),
                    Ok(worker_version) => {
                        if worker_version == version {
                            Stage::AskExecVersion(pair, version)
                        } else {
                            Stage::Determined(
                                Err(
                                    Error::WorkerBinaryVersionMismatch {
                                        worker_version,
                                        node_version: version,
                                        worker_path: pair.0,
                                    },
                                ),
                            )
                        }
                    },
                }
            },
            (Stage::AskExecVersion(pair, version), Answer::Version(reported)) => {
                match reported {
                    Err(failure) => Stage::Determined(Err(Error::Io(failure))),
                    Ok(worker_version) => {
                        if worker_version == version {
                            Stage::Determined(Ok(pair))
                        } else {
                            Stage::Determined(
                                Err(
                                    Error::WorkerBinaryVersionMismatch {
                                        worker_version,
                                        node_version: version,
                                        worker_path: pair.1,
                                    },
                                ),
                            )
                        }
                    },
                }
            },
            (unanswered, _) => unanswered,
        };
        WorkerSearch { request, node_version, stage }
    }
}

} // verus!
