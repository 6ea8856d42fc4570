//! What a search for the workers comes to on a host that does not change while it runs.

use crate::unix_path::{joined, parent};
use crate::workers::model::{
    exe_dir, exe_override, lib_dir, lib_override, listing_query, listing_start, listing_step,
    stage_notices, stage_query, stage_step, worker_paths, Answer, AnswerView, Error, ErrorView,
    Host, Listing, ListingView, Notice, Query, Request, RequestView, Stage, StageView,
};
use crate::workers::search::{
    dir_view, names_view, notice_view, notices_view, pair_view, path_view, query_view, text_view,
    SearchError, WorkerPair,
};
use vstd::prelude::*;
use vstd::utf8::encode_utf8;

verus! {

/// The listing after the host has answered up to `answers` questions.
pub open spec fn run_listing<E>(
    host: Host<E>,
    request: RequestView,
    listing: ListingView<E>,
    answers: nat,
) -> ListingView<E>
    decreases answers,
{
    match listing_query(listing) {
        Some(query) if answers > 0 => run_listing(
            host,
            request,
            listing_step(request, listing, host.answer(query)),
            (answers - 1) as nat,
        ),
        _ => listing,
    }
}

/// The search after the host has answered up to `answers` questions.
pub open spec fn run_search<E>(
    host: Host<E>,
    request: RequestView,
    node_version: Option<Seq<char>>,
    stage: StageView<E>,
    answers: nat,
) -> StageView<E>
    decreases answers,
{
    match stage_query(stage) {
        Some(query) if answers > 0 => run_search(
            host,
            request,
            node_version,
            stage_step(request, node_version, stage, host.answer(query)),
            (answers - 1) as nat,
        ),
        _ => stage,
    }
}

/// Listing the workers takes at most five answers and comes to the list that the host holds.
pub proof fn law_listing_is_complete<E>(host: Host<E>, request: RequestView)
    ensures
        run_listing(host, request, listing_start(request), 5) == Listing::Listed::<
            Seq<u8>,
            Seq<char>,
            Seq<(Seq<u8>, Seq<u8>)>,
            E,
        >(host.listed(request)),
{
    reveal_with_fuel(run_listing, 6);
    match host.listed(request) {
        Ok(pairs) => {
            let end = run_listing(host, request, listing_start(request), 5);
            assert(end matches Listing::Listed(Ok(found)) && found =~= pairs);
        },
        Err(_) => {},
    }
}

/// Determining the workers takes at most nine answers and comes to what the host holds.
pub proof fn law_search_is_complete<E>(
    host: Host<E>,
    request: RequestView,
    node_version: Option<Seq<char>>,
)
    ensures
        run_search(host, request, node_version, Stage::Looking(listing_start(request)), 9)
            == Stage::Determined::<Seq<u8>, Seq<char>, Seq<(Seq<u8>, Seq<u8>)>, E>(
            host.determined(request, node_version),
        ),
{
    reveal_with_fuel(run_search, 10);
}

/// An operator hears of more than one pair exactly when the listing is completed with more than
/// one, and is told the pairs.
pub proof fn law_several_pairs_are_noticed<E>(
    request: RequestView,
    node_version: Option<Seq<char>>,
    listing: ListingView<E>,
    answer: AnswerView<E>,
    first: (Seq<u8>, Seq<u8>),
    second: (Seq<u8>, Seq<u8>),
)
    requires
        listing !is Listed,
    ensures
        stage_notices(node_version, Stage::Looking(listing), answer).contains(
            Notice::SeveralFound { first, second },
        ) <==> (listing_step(request, listing, answer) matches Listing::Listed(Ok(pairs)) && pairs
            == seq![first, second]),
        listing_step(request, listing, answer) matches Listing::Listed(Ok(pairs)) ==> pairs.len()
            <= 2,
{
    let notices = stage_notices(node_version, Stage::Looking(listing), answer);
    let several = Notice::SeveralFound { first, second };
    if let Listing::Listed(Ok(pairs)) = listing_step(request, listing, answer) {
        if pairs == seq![first, second] {
            assert(pairs[0] == first && pairs[1] == second);
            assert(notices.last() == several);
        }
    }
    if notices.contains(several) {
        assert(listing_step(request, listing, answer)->Listed_0->Ok_0 =~= seq![first, second]);
    }
}

/// An operator hears of every complete pair at the locations that are searched without a given
/// path, and of no other pair, whatever else there is to hear.
pub proof fn law_found_pairs_are_noticed<E>(
    node_version: Option<Seq<char>>,
    earlier: Option<(Seq<u8>, Seq<u8>)>,
    pair: (Seq<u8>, Seq<u8>),
    other: (Seq<u8>, Seq<u8>),
    prep: bool,
    exec: bool,
)
    ensures
        ({
            let found = Notice::PairFound { prep_worker_path: other.0, exec_worker_path: other.1 };
            let beside: StageView<E> = Stage::Looking(Listing::AskBinExec(pair, prep));
            let packaged: StageView<E> = Stage::Looking(Listing::AskLibExec(earlier, pair, prep));
            &&& stage_notices(node_version, beside, Answer::Flag(exec)).contains(found) <==> prep
                && exec && other == pair
            &&& stage_notices(node_version, packaged, Answer::Flag(exec)).contains(found) <==> prep
                && exec && other == pair
        }),
{
    let found = Notice::PairFound { prep_worker_path: other.0, exec_worker_path: other.1 };
    let beside: StageView<E> = Stage::Looking(Listing::AskBinExec(pair, prep));
    let packaged: StageView<E> = Stage::Looking(Listing::AskLibExec(earlier, pair, prep));
    if prep && exec && other == pair {
        assert(stage_notices(node_version, beside, Answer::Flag(exec))[0] == found);
        assert(stage_notices(node_version, packaged, Answer::Flag(exec))[0] == found);
    }
}

/// An operator hears that the versions are not checked exactly when a pair is accepted without a
/// version to hold it against.
pub proof fn law_unchecked_versions_are_noticed<E>(
    request: RequestView,
    node_version: Option<Seq<char>>,
    stage: StageView<E>,
    answer: AnswerView<E>,
)
    requires
        stage !is Determined,
    ensures
        stage_notices(node_version, stage, answer).contains(Notice::VersionsUnchecked) <==> {
            &&& node_version is None
            &&& stage is AskExecExecutable
            &&& stage_step(request, node_version, stage, answer) matches Stage::Determined(Ok(_))
        },
{
    if node_version is None && stage is AskExecExecutable && answer == Answer::<
        Seq<u8>,
        Seq<char>,
        E,
    >::Flag(true) {
        assert(stage_notices(node_version, stage, answer)[0] == Notice::<
            Seq<u8>,
        >::VersionsUnchecked);
    }
}

/// Both binaries of every listed pair exist, but for a given path that is itself an executable.
pub proof fn law_listed_workers_exist<E>(host: Host<E>, request: RequestView)
    ensures
        host.listed(request) matches Ok(pairs) ==> forall|i: int|
            #![trigger pairs[i]]
            0 <= i < pairs.len() ==> {
                ||| (host.exists)(pairs[i].0) && (host.exists)(pairs[i].1)
                ||| request.given_workers_path == Some(pairs[i].0) && pairs[i].0 == pairs[i].1
                    && (host.is_executable)(pairs[i].0)
            },
{
}

/// Without a given path, a complete pair beside the node's own binary comes before the packaged
/// one.
pub proof fn law_binary_directory_comes_first<E>(host: Host<E>, request: RequestView)
    requires
        request.given_workers_path is None,
        exe_dir(host.current_exe, request.tmp_dir) is Ok,
    ensures
        ({
            let dir = exe_dir(host.current_exe, request.tmp_dir)->Ok_0;
            let pair = worker_paths(dir, request.workers_names);
            (host.exists)(pair.0) && (host.exists)(pair.1) ==> host.listed(request)->Ok_0[0] == pair
        }),
{
}

/// A pair that was determined is the first of the listed ones, is executable, and reports the
/// version of the node wherever one was asked for.
pub proof fn law_determined_workers_are_usable<E>(
    host: Host<E>,
    request: RequestView,
    node_version: Option<Seq<char>>,
)
    ensures
        host.determined(request, node_version) matches Ok(pair) ==> {
            &&& host.listed(request) matches Ok(pairs)
            &&& pairs.len() > 0
            &&& pair == pairs[0]
            &&& (host.is_executable)(pair.0)
            &&& (host.is_executable)(pair.1)
            &&& node_version matches Some(version) ==> {
                &&& (host.worker_version)(pair.0) == Ok::<Seq<char>, E>(version)
                &&& (host.worker_version)(pair.1) == Ok::<Seq<char>, E>(version)
            }
        },
{
}

/// Without any complete pair there are no workers to go on with: the error names what was looked
/// for and where the node's own binary lies.
pub proof fn law_missing_workers_are_an_error<E>(
    host: Host<E>,
    request: RequestView,
    node_version: Option<Seq<char>>,
)
    requires
        host.listed(request) matches Ok(pairs) && pairs.len() == 0,
    ensures
        host.determined(request, node_version) == Err::<(Seq<u8>, Seq<u8>), ErrorView<E>>(
            match exe_dir(host.current_exe, request.tmp_dir) {
                Err(error) => error,
                Ok(current_exe_path) => Error::MissingWorkerBinaries {
                    given_workers_path: request.given_workers_path,
                    current_exe_path,
                    workers_names: request.workers_names,
                },
            },
        ),
{
}

/// A given path that is itself an executable is the one pair; under any other given path exactly
/// the two requested names are looked for, and listed where both are there. Nothing else on the
/// host matters.
pub proof fn law_given_path_is_searched_for_the_requested_names<E>(
    host: Host<E>,
    path: Seq<u8>,
    prep: Seq<char>,
    exec: Seq<char>,
    tmp_dir: Option<Seq<u8>>,
)
    ensures
        ({
            let request = Request {
                given_workers_path: Some(path),
                workers_names: Some((prep, exec)),
                tmp_dir,
            };
            let prep_path = joined(path, encode_utf8(prep));
            let exec_path = joined(path, encode_utf8(exec));
            match host.listed(request) {
                Err(_) => false,
                Ok(pairs) => {
                    &&& (host.is_executable)(path) ==> pairs == seq![(path, path)]
                    &&& !(host.is_executable)(path) && (host.exists)(prep_path) && (host.exists)(
                        exec_path,
                    ) ==> pairs == seq![(prep_path, exec_path)]
                    &&& !(host.is_executable)(path) && !((host.exists)(prep_path) && (host.exists)(
                        exec_path,
                    )) ==> pairs.len() == 0
                },
            }
        }),
{
}

/// A pair of the requested names under a given directory that exists, is executable and reports
/// the version of the node is the pair that a search comes to.
pub proof fn law_good_workers_under_a_given_directory_are_determined<E>(
    host: Host<E>,
    path: Seq<u8>,
    prep: Seq<char>,
    exec: Seq<char>,
    tmp_dir: Option<Seq<u8>>,
    node_version: Option<Seq<char>>,
)
    requires
        !(host.is_executable)(path),
        (host.exists)(joined(path, encode_utf8(prep))),
        (host.exists)(joined(path, encode_utf8(exec))),
        (host.is_executable)(joined(path, encode_utf8(prep))),
        (host.is_executable)(joined(path, encode_utf8(exec))),
        node_version matches Some(version) ==> {
            &&& (host.worker_version)(joined(path, encode_utf8(prep))) == Ok::<Seq<char>, E>(
                version,
            )
            &&& (host.worker_version)(joined(path, encode_utf8(exec))) == Ok::<Seq<char>, E>(
                version,
            )
        },
    ensures
        ({
            let request = Request {
                given_workers_path: Some(path),
                workers_names: Some((prep, exec)),
                tmp_dir,
            };
            run_search(host, request, node_version, Stage::Looking(listing_start(request)), 9)
                == Stage::Determined::<Seq<u8>, Seq<char>, Seq<(Seq<u8>, Seq<u8>)>, E>(
                Ok((joined(path, encode_utf8(prep)), joined(path, encode_utf8(exec)))),
            )
        }),
{
    let request = Request {
        given_workers_path: Some(path),
        workers_names: Some((prep, exec)),
        tmp_dir,
    };
    law_given_path_is_searched_for_the_requested_names(host, path, prep, exec, tmp_dir);
    law_search_is_complete(host, request, node_version);
}

/// Without a given path the directory of the running program is searched, then that of the
/// packaged workers, each for the two requested names; a pair is listed where both of it are
/// there. Under an overriding root both directories lie below that root.
pub proof fn law_both_locations_are_searched_for_the_requested_names<E>(
    host: Host<E>,
    prep: Seq<char>,
    exec: Seq<char>,
    tmp_dir: Option<Seq<u8>>,
    exe: Seq<u8>,
)
    requires
        host.current_exe == Ok::<Seq<u8>, E>(exe),
    ensures
        ({
            let request = Request {
                given_workers_path: None,
                workers_names: Some((prep, exec)),
                tmp_dir,
            };
            let bin_dir = match tmp_dir {
                Some(root) => joined(root, encode_utf8("usr/bin"@)),
                None => match parent(exe) {
                    Some(dir) => dir,
                    None => exe,
                },
            };
            let lib_dir = match tmp_dir {
                Some(root) => joined(root, encode_utf8("usr/lib/polkadot"@)),
                None => encode_utf8("/usr/lib/polkadot"@),
            };
            let bin = (joined(bin_dir, encode_utf8(prep)), joined(bin_dir, encode_utf8(exec)));
            let lib = (joined(lib_dir, encode_utf8(prep)), joined(lib_dir, encode_utf8(exec)));
            let bin_there = (host.exists)(bin.0) && (host.exists)(bin.1);
            let lib_there = (host.exists)(lib.0) && (host.exists)(lib.1);
            match host.listed(request) {
                Err(_) => false,
                Ok(pairs) => {
                    &&& bin_there && lib_there ==> pairs == seq![bin, lib]
                    &&& bin_there && !lib_there ==> pairs == seq![bin]
                    &&& !bin_there && lib_there ==> pairs == seq![lib]
                    &&& !bin_there && !lib_there ==> pairs.len() == 0
                },
            }
        }),
{
    let request = Request {
        given_workers_path: None,
        workers_names: Some((prep, exec)),
        tmp_dir,
    };
    let bin_dir = match tmp_dir {
        Some(root) => joined(root, encode_utf8("usr/bin"@)),
        None => match parent(exe) {
            Some(dir) => dir,
            None => exe,
        },
    };
    let lib_dir = match tmp_dir {
        Some(root) => joined(root, encode_utf8("usr/lib/polkadot"@)),
        None => encode_utf8("/usr/lib/polkadot"@),
    };
    let bin = (joined(bin_dir, encode_utf8(prep)), joined(bin_dir, encode_utf8(exec)));
    let lib = (joined(lib_dir, encode_utf8(prep)), joined(lib_dir, encode_utf8(exec)));
    let pairs = host.listed(request)->Ok_0;
    assert(seq![bin] + seq![lib] =~= seq![bin, lib]);
    assert(seq![bin] + Seq::<(Seq<u8>, Seq<u8>)>::empty() =~= seq![bin]);
    assert(Seq::<(Seq<u8>, Seq<u8>)>::empty() + seq![lib] =~= seq![lib]);
}

/// Without names the workers are looked for as if their usual names had been given.
pub proof fn law_usual_names_stand_in<E>(host: Host<E>, request: RequestView)
    requires
        request.workers_names is None,
    ensures
        host.listed(request) == host.listed(
            Request {
                workers_names: Some(("polkadot-prepare-worker"@, "polkadot-execute-worker"@)),
                ..request
            },
        ),
{
}

/// Where the running program is not to be found out, neither are its workers: the failure of the
/// host is passed on, unless a path is given.
pub proof fn law_unknown_program_is_an_error<E>(host: Host<E>, request: RequestView, failure: E)
    requires
        host.current_exe == Err::<Seq<u8>, E>(failure),
    ensures
        request.given_workers_path is None ==> host.listed(request) == Err::<
            Seq<(Seq<u8>, Seq<u8>)>,
            ErrorView<E>,
        >(Error::Io(failure)),
        request.given_workers_path is Some ==> host.listed(request) is Ok,
{
}

/// Where the running program lies: in its parent directory, or in the overriding one.
pub proof fn law_program_lies_in_its_directory<E>(
    current_exe: Result<Seq<u8>, E>,
    tmp_dir: Option<Seq<u8>>,
)
    ensures
        match (current_exe, tmp_dir) {
            (Err(failure), _) => exe_dir(current_exe, tmp_dir) == Err::<Seq<u8>, ErrorView<E>>(
                Error::Io(failure),
            ),
            (Ok(_), Some(root)) => exe_dir(current_exe, tmp_dir) == Ok::<Seq<u8>, ErrorView<E>>(
                joined(root, encode_utf8("usr/bin"@)),
            ),
            (Ok(exe), None) => {
                &&& parent(exe) matches Some(dir) ==> exe_dir(current_exe, tmp_dir) == Ok::<
                    Seq<u8>,
                    ErrorView<E>,
                >(dir)
                &&& parent(exe) is None ==> exe_dir(current_exe, tmp_dir) == Ok::<
                    Seq<u8>,
                    ErrorView<E>,
                >(exe)
            },
        },
{
}

/// An overriding root moves both directories below it, and none moves neither.
pub proof fn law_overrides_lie_below_their_root(root: Seq<u8>)
    ensures
        exe_override(Some(root)) == Some(joined(root, encode_utf8("usr/bin"@))),
        lib_override(Some(root)) == Some(joined(root, encode_utf8("usr/lib/polkadot"@))),
        lib_dir(Some(root)) == joined(root, encode_utf8("usr/lib/polkadot"@)),
        exe_override(None) is None,
        lib_override(None) is None,
        lib_dir(None) == encode_utf8("/usr/lib/polkadot"@),
{
}

/// The two workers of a directory carry the requested names, or the usual ones.
pub proof fn law_workers_carry_their_names(dir: Seq<u8>, prep: Seq<char>, exec: Seq<char>)
    ensures
        worker_paths(dir, Some((prep, exec))).0 == joined(dir, encode_utf8(prep)),
        worker_paths(dir, Some((prep, exec))).1 == joined(dir, encode_utf8(exec)),
        worker_paths(dir, None).0 == joined(dir, encode_utf8("polkadot-prepare-worker"@)),
        worker_paths(dir, None).1 == joined(dir, encode_utf8("polkadot-execute-worker"@)),
{
}

/// What becomes of the first listed pair: it is accepted exactly where both binaries are
/// executable and both report the version of the node, if one is asked for; each error comes
/// exactly where its reason holds, the preparation worker being looked at first.
pub proof fn law_first_pair_is_judged<E>(
    host: Host<E>,
    request: RequestView,
    node_version: Option<Seq<char>>,
    pairs: Seq<(Seq<u8>, Seq<u8>)>,
    version: Seq<char>,
    reported: Seq<char>,
    worker: Seq<u8>,
    failure: E,
)
    requires
        host.listed(request) == Ok::<Seq<(Seq<u8>, Seq<u8>)>, ErrorView<E>>(pairs),
        pairs.len() > 0,
    ensures
        ({
            let (prep, exec) = pairs[0];
            let outcome = host.determined(request, node_version);
            let executable = (host.is_executable)(prep) && (host.is_executable)(exec);
            let prep_version = (host.worker_version)(prep);
            let exec_version = (host.worker_version)(exec);
            &&& outcome is Ok <==> executable && (node_version matches Some(wanted) ==> prep_version
                == Ok::<Seq<char>, E>(wanted) && exec_version == Ok::<Seq<char>, E>(wanted))
            &&& outcome matches Ok(pair) ==> pair == pairs[0]
            &&& outcome == Err::<(Seq<u8>, Seq<u8>), ErrorView<E>>(
                Error::InvalidWorkerBinaries { prep_worker_path: prep, exec_worker_path: exec },
            ) <==> !executable
            &&& outcome == Err::<(Seq<u8>, Seq<u8>), ErrorView<E>>(Error::Io(failure)) <==> {
                &&& executable
                &&& node_version matches Some(wanted)
                &&& {
                    ||| prep_version == Err::<Seq<char>, E>(failure)
                    ||| prep_version == Ok::<Seq<char>, E>(wanted) && exec_version == Err::<
                        Seq<char>,
                        E,
                    >(failure)
                }
            }
            &&& outcome == Err::<(Seq<u8>, Seq<u8>), ErrorView<E>>(
                Error::WorkerBinaryVersionMismatch {
                    worker_version: reported,
                    node_version: version,
                    worker_path: worker,
                },
            ) <==> {
                &&& executable
                &&& node_version == Some(version)
                &&& reported != version
                &&& {
                    ||| worker == prep && prep_version == Ok::<Seq<char>, E>(reported)
                    ||| worker == exec && prep_version == Ok::<Seq<char>, E>(version)
                        && exec_version == Ok::<Seq<char>, E>(reported)
                }
            }
        }),
{
}

/// A failed listing is the failure of the search.
pub proof fn law_failed_listing_fails_the_search<E>(
    host: Host<E>,
    request: RequestView,
    node_version: Option<Seq<char>>,
    error: ErrorView<E>,
)
    requires
        host.listed(request) == Err::<Seq<(Seq<u8>, Seq<u8>)>, ErrorView<E>>(error),
    ensures
        host.determined(request, node_version) == Err::<(Seq<u8>, Seq<u8>), ErrorView<E>>(error),
{
}

/// Whether an answer is of the kind that a question asks for.
pub open spec fn answers<E>(query: Query<Seq<u8>>, answer: AnswerView<E>) -> bool {
    match query {
        Query::IsExecutable(_) => answer is Flag,
        Query::Exists(_) => answer is Flag,
        Query::CurrentExe => answer is ExePath,
        Query::WorkerVersion(_) => answer is Version,
    }
}

/// An answer to another question than the one asked changes nothing and tells nothing.
pub proof fn law_other_answers_change_nothing<E>(
    request: RequestView,
    node_version: Option<Seq<char>>,
    listing: ListingView<E>,
    stage: StageView<E>,
    answer: AnswerView<E>,
)
    ensures
        listing_query(listing) matches Some(query) ==> !answers(query, answer) ==> listing_step(
            request,
            listing,
            answer,
        ) == listing,
        stage_query(stage) matches Some(query) ==> !answers(query, answer) ==> stage_step(
            request,
            node_version,
            stage,
            answer,
        ) == stage && stage_notices(node_version, stage, answer).len() == 0,
{
}

/// Every answer to the question asked takes a search on to another question, or to its end.
pub proof fn law_answers_take_a_search_on<E>(
    request: RequestView,
    node_version: Option<Seq<char>>,
    listing: ListingView<E>,
    stage: StageView<E>,
    answer: AnswerView<E>,
)
    ensures
        listing_query(listing) matches Some(query) ==> answers(query, answer) ==> listing_step(
            request,
            listing,
            answer,
        ) != listing,
        stage_query(stage) matches Some(query) ==> answers(query, answer) ==> stage_step(
            request,
            node_version,
            stage,
            answer,
        ) != stage,
{
}

/// All that an operator hears of while the host answers up to `answers` questions.
pub open spec fn run_notices<E>(
    host: Host<E>,
    request: RequestView,
    node_version: Option<Seq<char>>,
    stage: StageView<E>,
    answers: nat,
) -> Seq<Notice<Seq<u8>>>
    decreases answers,
{
    match stage_query(stage) {
        Some(query) if answers > 0 => stage_notices(node_version, stage, host.answer(query))
            + run_notices(
            host,
            request,
            node_version,
            stage_step(request, node_version, stage, host.answer(query)),
            (answers - 1) as nat,
        ),
        _ => seq![],
    }
}

/// What an operator hears of one pair on a host: that it is there, or which half of it is.
pub open spec fn heard_of_pair<E>(
    host: Host<E>,
    pair: (Seq<u8>, Seq<u8>),
    notice: Notice<Seq<u8>>,
) -> bool {
    let prep = (host.exists)(pair.0);
    let exec = (host.exists)(pair.1);
    match notice {
        Notice::PairFound { prep_worker_path, exec_worker_path } => prep && exec && (
            prep_worker_path,
            exec_worker_path,
        ) == pair,
        Notice::HalfFound { found, missing } => {
            ||| prep && !exec && (found, missing) == pair
            ||| exec && !prep && (missing, found) == pair
        },
        _ => false,
    }
}

/// Whether any of three lists holds an item tells whether all of them together do.
proof fn lemma_heard_in_one_of<A>(first: Seq<A>, second: Seq<A>, third: Seq<A>, item: A)
    ensures
        (first + second + third).contains(item) <==> first.contains(item) || second.contains(item)
            || third.contains(item),
{
    let all = first + second + third;
    if first.contains(item) {
        let i = choose|i: int| 0 <= i < first.len() && first[i] == item;
        assert(all[i] == item);
    }
    if second.contains(item) {
        let i = choose|i: int| 0 <= i < second.len() && second[i] == item;
        assert(all[first.len() + i] == item);
    }
    if third.contains(item) {
        let i = choose|i: int| 0 <= i < third.len() && third[i] == item;
        assert(all[first.len() + second.len() + i] == item);
    }
    if all.contains(item) {
        let i = choose|i: int| 0 <= i < all.len() && all[i] == item;
        if i < first.len() {
            assert(first[i] == item);
        } else if i < first.len() + second.len() {
            assert(second[i - first.len()] == item);
        } else {
            assert(third[i - first.len() - second.len()] == item);
        }
    }
}

/// In a search of all locations an operator hears of each location what is there of its pair, of
/// both pairs together where both are complete, and of unchecked versions where a pair is accepted
/// without a version; and of nothing else.
pub proof fn law_operators_hear_of_all_locations<E>(
    host: Host<E>,
    request: RequestView,
    node_version: Option<Seq<char>>,
    dir: Seq<u8>,
    notice: Notice<Seq<u8>>,
)
    requires
        request.given_workers_path is None,
        exe_dir(host.current_exe, request.tmp_dir) == Ok::<Seq<u8>, ErrorView<E>>(dir),
    ensures
        ({
            let bin = worker_paths(dir, request.workers_names);
            let lib = worker_paths(lib_dir(request.tmp_dir), request.workers_names);
            let all_there = (host.exists)(bin.0) && (host.exists)(bin.1) && (host.exists)(lib.0)
                && (host.exists)(lib.1);
            run_notices(
                host,
                request,
                node_version,
                Stage::Looking(listing_start(request)),
                9,
            ).contains(notice) <==> {
                ||| heard_of_pair(host, bin, notice)
                ||| heard_of_pair(host, lib, notice)
                ||| notice == (Notice::SeveralFound { first: bin, second: lib }) && all_there
                ||| notice == Notice::<Seq<u8>>::VersionsUnchecked && node_version is None
                    && host.determined(request, node_version) is Ok
            }
        }),
{
    reveal_with_fuel(run_notices, 10);
    let bin = worker_paths(dir, request.workers_names);
    let lib = worker_paths(lib_dir(request.tmp_dir), request.workers_names);
    let bin_prep = (host.exists)(bin.0);
    let bin_exec = (host.exists)(bin.1);
    let lib_prep = (host.exists)(lib.0);
    let lib_exec = (host.exists)(lib.1);
    let found = if bin_prep && bin_exec {
        Some(bin)
    } else {
        None
    };
    let first: Seq<Notice<Seq<u8>>> = stage_notices::<E>(
        node_version,
        Stage::Looking(Listing::AskBinExec(bin, bin_prep)),
        Answer::Flag(bin_exec),
    );
    let second: Seq<Notice<Seq<u8>>> = stage_notices::<E>(
        node_version,
        Stage::Looking(Listing::AskLibExec(found, lib, lib_prep)),
        Answer::Flag(lib_exec),
    );
    let third: Seq<Notice<Seq<u8>>> = if node_version is None && host.determined(
        request,
        node_version,
    ) is Ok {
        seq![Notice::VersionsUnchecked]
    } else {
        seq![]
    };
    let all = run_notices(host, request, node_version, Stage::Looking(listing_start(request)), 9);
    assert(all =~= first + second + third);
    lemma_heard_in_one_of(first, second, third, notice);
    assert(first.contains(notice) <==> heard_of_pair(host, bin, notice)) by {
        if heard_of_pair(host, bin, notice) {
            assert(first[0] == notice);
        }
    }
    assert(second.contains(notice) <==> heard_of_pair(host, lib, notice) || (notice == (
    Notice::SeveralFound { first: bin, second: lib }) && bin_prep && bin_exec && lib_prep
        && lib_exec)) by {
        if heard_of_pair(host, lib, notice) {
            assert(second[0] == notice);
        }
        if notice == (Notice::SeveralFound { first: bin, second: lib }) && bin_prep && bin_exec
            && lib_prep && lib_exec {
            assert(second[1] == notice);
        }
    }
    if third.len() > 0 {
        assert(third[0] == Notice::<Seq<u8>>::VersionsUnchecked);
    }
}

/// In a search at a given path an operator hears of that path, and of unchecked versions where a
/// pair is accepted without a version; and of nothing else.
pub proof fn law_operators_hear_of_the_given_path<E>(
    host: Host<E>,
    request: RequestView,
    node_version: Option<Seq<char>>,
    path: Seq<u8>,
    notice: Notice<Seq<u8>>,
)
    requires
        request.given_workers_path == Some(path),
    ensures
        run_notices(
            host,
            request,
            node_version,
            Stage::Looking(listing_start(request)),
            9,
        ).contains(notice) <==> {
            ||| notice == Notice::GivenPath(path)
            ||| notice == Notice::<Seq<u8>>::VersionsUnchecked && node_version is None
                && host.determined(request, node_version) is Ok
        },
{
    reveal_with_fuel(run_notices, 10);
    let first: Seq<Notice<Seq<u8>>> = seq![Notice::GivenPath(path)];
    let third: Seq<Notice<Seq<u8>>> = if node_version is None && host.determined(
        request,
        node_version,
    ) is Ok {
        seq![Notice::VersionsUnchecked]
    } else {
        seq![]
    };
    let all = run_notices(host, request, node_version, Stage::Looking(listing_start(request)), 9);
    assert(all =~= first + seq![] + third);
    lemma_heard_in_one_of(first, seq![], third, notice);
    assert(first[0] == Notice::GivenPath(path));
    if third.len() > 0 {
        assert(third[0] == Notice::<Seq<u8>>::VersionsUnchecked);
    }
}

/// What a caller asks for is what the search is about: every part of a request, with its bytes and
/// characters.
pub proof fn law_requests_are_taken_whole(
    path: Option<Vec<u8>>,
    names: Option<(String, String)>,
    root: Option<Vec<u8>>,
)
    ensures
        ({
            let request = Request {
                given_workers_path: path,
                workers_names: names,
                tmp_dir: root,
            };
            &&& request@.given_workers_path is Some <==> path is Some
            &&& path matches Some(bytes) ==> request@.given_workers_path == Some(bytes@)
            &&& request@.workers_names is Some <==> names is Some
            &&& names matches Some((prep, exec)) ==> request@.workers_names == Some((prep@, exec@))
            &&& request@.tmp_dir is Some <==> root is Some
            &&& root matches Some(bytes) ==> request@.tmp_dir == Some(bytes@)
        }),
{
}

/// What a search asks, is told and finds is what its contracts speak of, byte for byte.
pub proof fn law_questions_and_results_are_taken_whole<E>(
    path: Vec<u8>,
    other: Vec<u8>,
    text: String,
    other_text: String,
    flag: bool,
    failure: E,
)
    ensures
        query_view(Some(Query::IsExecutable(path))) == Some(Query::IsExecutable(path@)),
        query_view(Some(Query::Exists(path))) == Some(Query::Exists(path@)),
        query_view(Some(Query::WorkerVersion(path))) == Some(Query::WorkerVersion(path@)),
        query_view(Some(Query::CurrentExe)) == Some(Query::<Seq<u8>>::CurrentExe),
        query_view(None) is None,
        text_view(Some(text)) == Some(text@),
        text_view(None) is None,
        path_view(Some(path)) == Some(path@),
        path_view(None) is None,
        names_view(Some((text, other_text))) == Some((text@, other_text@)),
        names_view(None) is None,
        dir_view(Ok::<Vec<u8>, SearchError<E>>(path)) == Ok::<Seq<u8>, ErrorView<E>>(path@),
        dir_view(Err::<Vec<u8>, SearchError<E>>(Error::Io(failure))) == Err::<
            Seq<u8>,
            ErrorView<E>,
        >(Error::Io(failure)),
        pair_view((path, other)) == (path@, other@),
        (Answer::<Vec<u8>, String, E>::Flag(flag))@ == Answer::<Seq<u8>, Seq<char>, E>::Flag(flag),
        (Answer::<Vec<u8>, String, E>::ExePath(Ok(path)))@ == Answer::<
            Seq<u8>,
            Seq<char>,
            E,
        >::ExePath(Ok(path@)),
        (Answer::<Vec<u8>, String, E>::ExePath(Err(failure)))@ == Answer::<
            Seq<u8>,
            Seq<char>,
            E,
        >::ExePath(Err(failure)),
        (Answer::<Vec<u8>, String, E>::Version(Ok(text)))@ == Answer::<
            Seq<u8>,
            Seq<char>,
            E,
        >::Version(Ok(text@)),
        (Answer::<Vec<u8>, String, E>::Version(Err(failure)))@ == Answer::<
            Seq<u8>,
            Seq<char>,
            E,
        >::Version(Err(failure)),
        (Stage::<Vec<u8>, String, Vec<WorkerPair>, E>::Determined(Ok((path, other))))@ == Stage::<
            Seq<u8>,
            Seq<char>,
            Seq<(Seq<u8>, Seq<u8>)>,
            E,
        >::Determined(Ok((path@, other@))),
        (Error::<Vec<u8>, String, E>::InvalidWorkerBinaries {
            prep_worker_path: path,
            exec_worker_path: other,
        })@ == (Error::<Seq<u8>, Seq<char>, E>::InvalidWorkerBinaries {
            prep_worker_path: path@,
            exec_worker_path: other@,
        }),
        (Error::<Vec<u8>, String, E>::WorkerBinaryVersionMismatch {
            worker_version: text,
            node_version: other_text,
            worker_path: path,
        })@ == (Error::<Seq<u8>, Seq<char>, E>::WorkerBinaryVersionMismatch {
            worker_version: text@,
            node_version: other_text@,
            worker_path: path@,
        }),
        (Error::<Vec<u8>, String, E>::MissingWorkerBinaries {
            given_workers_path: Some(other),
            current_exe_path: path,
            workers_names: Some((text, other_text)),
        })@ == (Error::<Seq<u8>, Seq<char>, E>::MissingWorkerBinaries {
            given_workers_path: Some(other@),
            current_exe_path: path@,
            workers_names: Some((text@, other_text@)),
        }),
        (Error::<Vec<u8>, String, E>::MissingWorkerBinaries {
            given_workers_path: None,
            current_exe_path: path,
            workers_names: None,
        })@ == (Error::<Seq<u8>, Seq<char>, E>::MissingWorkerBinaries {
            given_workers_path: None,
            current_exe_path: path@,
            workers_names: None,
        }),
        (Error::<Vec<u8>, String, E>::Io(failure))@ == Error::<Seq<u8>, Seq<char>, E>::Io(failure),
{
}

/// Errors and lists of pairs come out as they are, and notices name the paths they are about.
pub proof fn law_lists_and_notices_are_taken_whole<E>(
    pairs: Vec<WorkerPair>,
    error: SearchError<E>,
    notices: Seq<Notice<Vec<u8>>>,
    path: Vec<u8>,
    other: Vec<u8>,
    pair: WorkerPair,
    i: int,
)
    ensures
        (Stage::<Vec<u8>, String, Vec<WorkerPair>, E>::Determined(Err(error)))@ == Stage::<
            Seq<u8>,
            Seq<char>,
            Seq<(Seq<u8>, Seq<u8>)>,
            E,
        >::Determined(Err(error@)),
        (Listing::<Vec<u8>, String, Vec<WorkerPair>, E>::Listed(Err(error)))@ == Listing::<
            Seq<u8>,
            Seq<char>,
            Seq<(Seq<u8>, Seq<u8>)>,
            E,
        >::Listed(Err(error@)),
        (Listing::<Vec<u8>, String, Vec<WorkerPair>, E>::Listed(Ok(pairs)))@ matches Listing::Listed(
            Ok(listed),
        ) && listed.len() == pairs@.len() && (0 <= i < pairs@.len() ==> listed[i] == (
            pairs@[i].0@,
            pairs@[i].1@,
        )),
        notices_view(notices).len() == notices.len(),
        0 <= i < notices.len() ==> notices_view(notices)[i] == notice_view(notices[i]),
        notice_view(Notice::GivenPath(path)) == Notice::GivenPath(path@),
        notice_view(Notice::PairFound { prep_worker_path: path, exec_worker_path: other }) == (
        Notice::PairFound { prep_worker_path: path@, exec_worker_path: other@ }),
        notice_view(Notice::HalfFound { found: path, missing: other }) == (Notice::HalfFound {
            found: path@,
            missing: other@,
        }),
        notice_view(Notice::SeveralFound { first: (path, other), second: pair }) == (
        Notice::SeveralFound { first: (path@, other@), second: (pair.0@, pair.1@) }),
        notice_view(Notice::VersionsUnchecked) == Notice::<Seq<u8>>::VersionsUnchecked,
{
}

/// However the host may change in between, a binary that is not executable when it is asked about
/// makes the pair invalid, a version other than that of the node is a mismatch of the worker asked
/// about, and a pair is accepted only by the last question.
pub proof fn law_each_check_of_a_pair_can_fail_it<E>(
    request: RequestView,
    node_version: Option<Seq<char>>,
    pair: (Seq<u8>, Seq<u8>),
    version: Seq<char>,
    reported: Seq<char>,
    failure: E,
)
    ensures
        ({
            let invalid: StageView<E> = Stage::Determined(
                Err(
                    Error::InvalidWorkerBinaries {
                        prep_worker_path: pair.0,
                        exec_worker_path: pair.1,
                    },
                ),
            );
            let prep: StageView<E> = Stage::AskPrepVersion(pair, version);
            let exec: StageView<E> = Stage::AskExecVersion(pair, version);
            let step = |stage: StageView<E>, answer: AnswerView<E>|
                stage_step(request, node_version, stage, answer);
            &&& step(Stage::AskPrepExecutable(pair), Answer::Flag(false)) == invalid
            &&& step(Stage::AskExecExecutable(pair), Answer::Flag(false)) == invalid
            &&& step(Stage::AskPrepExecutable(pair), Answer::Flag(true)) == Stage::<
                Seq<u8>,
                Seq<char>,
                Seq<(Seq<u8>, Seq<u8>)>,
                E,
            >::AskExecExecutable(pair)
            &&& node_version == Some(version) ==> step(
                Stage::AskExecExecutable(pair),
                Answer::Flag(true),
            ) == prep
            &&& node_version is None ==> step(Stage::AskExecExecutable(pair), Answer::Flag(true))
                == Stage::<Seq<u8>, Seq<char>, Seq<(Seq<u8>, Seq<u8>)>, E>::Determined(Ok(pair))
            &&& step(prep, Answer::Version(Ok(version))) == exec
            &&& step(exec, Answer::Version(Ok(version))) == Stage::<
                Seq<u8>,
                Seq<char>,
                Seq<(Seq<u8>, Seq<u8>)>,
                E,
            >::Determined(Ok(pair))
            &&& reported != version ==> step(prep, Answer::Version(Ok(reported))) == Stage::<
                Seq<u8>,
                Seq<char>,
                Seq<(Seq<u8>, Seq<u8>)>,
                E,
            >::Determined(
                Err(
                    Error::WorkerBinaryVersionMismatch {
                        worker_version: reported,
                        node_version: version,
                        worker_path: pair.0,
                    },
                ),
            )
            &&& reported != version ==> step(exec, Answer::Version(Ok(reported))) == Stage::<
                Seq<u8>,
                Seq<char>,
                Seq<(Seq<u8>, Seq<u8>)>,
                E,
            >::Determined(
                Err(
                    Error::WorkerBinaryVersionMismatch {
                        worker_version: reported,
                        node_version: version,
                        worker_path: pair.1,
                    },
                ),
            )
            &&& step(prep, Answer::Version(Err(failure))) == Stage::<
                Seq<u8>,
                Seq<char>,
                Seq<(Seq<u8>, Seq<u8>)>,
                E,
            >::Determined(Err(Error::Io(failure)))
            &&& step(exec, Answer::Version(Err(failure))) == Stage::<
                Seq<u8>,
                Seq<char>,
                Seq<(Seq<u8>, Seq<u8>)>,
                E,
            >::Determined(Err(Error::Io(failure)))
        }),
{
}

} // verus!
