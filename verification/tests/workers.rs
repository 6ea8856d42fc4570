use polkadot_kit::workers::model::{Answer, Error, Listing, Notice, Query, Stage};
use polkadot_kit::workers::search::{
    build_worker_paths, determine_workers_paths, get_exe_path, list_workers_paths,
    workers_exe_path_override, workers_lib_path_override, SearchError, WorkerListing, WorkerPair,
    WorkerSearch,
};
use std::collections::BTreeMap;

const TEST_NODE_VERSION: &'static str = "v0.1.2";

const ROOT: &'static str = "/tmp/kit";

/// A file of the simulated host.
struct File {
    executable: bool,
    version: Result<String, String>,
}

/// A simulated host: files by path, and the path of the running program.
struct FakeHost {
    files: BTreeMap<Vec<u8>, File>,
    current_exe: Result<Vec<u8>, String>,
    tmp_dir: Option<Vec<u8>>,
}

fn bytes(text: &str) -> Vec<u8> {
    text.as_bytes().to_vec()
}

/// A path below the overriding root.
fn at(path: &str) -> Vec<u8> {
    bytes(&format!("{}/{}", ROOT, path))
}

impl FakeHost {
    fn new() -> FakeHost {
        FakeHost {
            files: BTreeMap::new(),
            current_exe: Ok(bytes("/opt/node/polkadot")),
            tmp_dir: Some(bytes(ROOT)),
        }
    }

    fn write_worker_exe(&mut self, path: &Vec<u8>) {
        self.write_worker_exe_invalid_version(path, TEST_NODE_VERSION);
    }

    fn write_worker_exe_invalid_version(&mut self, path: &Vec<u8>, version: &str) {
        let file = File { executable: true, version: Ok(version.to_string()) };
        self.files.insert(path.clone(), file);
    }

    fn set_executable(&mut self, path: &Vec<u8>, executable: bool) {
        self.files.get_mut(path).unwrap().executable = executable;
    }

    fn remove_file(&mut self, path: &Vec<u8>) {
        self.files.remove(path).unwrap();
    }

    fn answer(&self, query: Query<Vec<u8>>) -> Answer<Vec<u8>, String, String> {
        match query {
            Query::IsExecutable(path) => {
                Answer::Flag(self.files.get(&path).map_or(false, |f| f.executable))
            },
            Query::Exists(path) => Answer::Flag(self.files.contains_key(&path)),
            Query::CurrentExe => Answer::ExePath(self.current_exe.clone()),
            Query::WorkerVersion(path) => Answer::Version(self.files[&path].version.clone()),
        }
    }

    fn determine(
        &self,
        given_workers_path: Option<Vec<u8>>,
        workers_names: Option<(String, String)>,
        node_version: Option<String>,
    ) -> Result<WorkerPair, SearchError<String>> {
        let mut search: WorkerSearch<String> = determine_workers_paths(
            given_workers_path,
            workers_names,
            node_version,
            self.tmp_dir.clone(),
        );
        let mut answers = 0;
        while let Some(query) = search.query() {
            search = search.answer(self.answer(query));
            answers += 1;
            assert!(answers <= 9);
        }
        match search.stage {
            Stage::Determined(result) => result,
            _ => panic!("the search asks nothing but is not over"),
        }
    }

    fn list(
        &self,
        given_workers_path: Option<Vec<u8>>,
        workers_names: Option<(String, String)>,
    ) -> Result<Vec<WorkerPair>, SearchError<String>> {
        let mut listing: WorkerListing<String> =
            list_workers_paths(given_workers_path, workers_names, self.tmp_dir.clone());
        let mut answers = 0;
        while let Some(query) = listing.query() {
            listing = listing.answer(self.answer(query));
            answers += 1;
            assert!(answers <= 5);
        }
        match listing.listing {
            Listing::Listed(result) => result,
            _ => panic!("the listing asks nothing but is not complete"),
        }
    }
}

/// What an operator hears of during a search.
fn notices(
    host: &FakeHost,
    given_workers_path: Option<Vec<u8>>,
    node_version: Option<String>,
) -> Vec<Notice<Vec<u8>>> {
    let mut heard = Vec::new();
    let mut search: WorkerSearch<String> =
        determine_workers_paths(given_workers_path, None, node_version, host.tmp_dir.clone());
    while let Some(query) = search.query() {
        let answer = host.answer(query);
        heard.extend(search.notices(&answer));
        search = search.answer(answer);
    }
    heard
}

fn node_version() -> Option<String> {
    Some(TEST_NODE_VERSION.to_string())
}

#[test]
fn test_given_worker_path() {
    let mut host = FakeHost::new();
    let exe_path = at("usr/bin");
    let given_workers_path = at("usr/local/bin");

    // Try with provided workers path that has missing binaries.
    assert_eq!(
        host.determine(Some(given_workers_path.clone()), None, node_version()),
        Err(Error::MissingWorkerBinaries {
            given_workers_path: Some(given_workers_path.clone()),
            current_exe_path: exe_path,
            workers_names: None,
        })
    );

    // Try with provided workers path that has non-executable binaries.
    let prepare_worker_path = at("usr/local/bin/polkadot-prepare-worker");
    host.write_worker_exe(&prepare_worker_path);
    host.set_executable(&prepare_worker_path, false);
    let execute_worker_path = at("usr/local/bin/polkadot-execute-worker");
    host.write_worker_exe(&execute_worker_path);
    host.set_executable(&execute_worker_path, false);
    assert_eq!(
        host.determine(Some(given_workers_path.clone()), None, node_version()),
        Err(Error::InvalidWorkerBinaries {
            prep_worker_path: prepare_worker_path.clone(),
            exec_worker_path: execute_worker_path.clone(),
        })
    );

    // Try with valid workers directory path that has executable binaries.
    host.set_executable(&prepare_worker_path, true);
    host.set_executable(&execute_worker_path, true);
    assert_eq!(
        host.determine(Some(given_workers_path), None, node_version()),
        Ok((prepare_worker_path, execute_worker_path))
    );

    // Try with valid provided workers path that is a binary file.
    let given_workers_path = at("usr/local/bin/test-worker");
    host.write_worker_exe(&given_workers_path);
    assert_eq!(
        host.determine(Some(given_workers_path.clone()), None, node_version()),
        Ok((given_workers_path.clone(), given_workers_path))
    );
}

#[test]
fn missing_workers_paths_throws_error() {
    let mut host = FakeHost::new();
    let missing = || {
        Err(Error::MissingWorkerBinaries {
            given_workers_path: None,
            current_exe_path: at("usr/bin"),
            workers_names: None,
        })
    };

    // Try with both binaries missing.
    assert_eq!(host.determine(None, None, node_version()), missing());

    // Try with only prep worker (at bin location).
    let prepare_worker_path = at("usr/bin/polkadot-prepare-worker");
    host.write_worker_exe(&prepare_worker_path);
    assert_eq!(host.determine(None, None, node_version()), missing());

    // Try with only exec worker (at bin location).
    host.remove_file(&prepare_worker_path);
    let execute_worker_path = at("usr/bin/polkadot-execute-worker");
    host.write_worker_exe(&execute_worker_path);
    assert_eq!(host.determine(None, None, node_version()), missing());

    // Try with only prep worker (at lib location).
    host.remove_file(&execute_worker_path);
    let prepare_worker_path = at("usr/lib/polkadot/polkadot-prepare-worker");
    host.write_worker_exe(&prepare_worker_path);
    assert_eq!(host.determine(None, None, node_version()), missing());

    // Try with only exec worker (at lib location).
    host.remove_file(&prepare_worker_path);
    let execute_worker_path = at("usr/lib/polkadot/polkadot-execute-worker");
    host.write_worker_exe(&execute_worker_path);
    assert_eq!(host.determine(None, None, node_version()), missing());
}

#[test]
fn should_find_workers_at_all_locations() {
    let mut host = FakeHost::new();
    let prepare_worker_bin_path = at("usr/bin/polkadot-prepare-worker");
    host.write_worker_exe(&prepare_worker_bin_path);
    let execute_worker_bin_path = at("usr/bin/polkadot-execute-worker");
    host.write_worker_exe(&execute_worker_bin_path);
    let prepare_worker_lib_path = at("usr/lib/polkadot/polkadot-prepare-worker");
    host.write_worker_exe(&prepare_worker_lib_path);
    let execute_worker_lib_path = at("usr/lib/polkadot/polkadot-execute-worker");
    host.write_worker_exe(&execute_worker_lib_path);

    assert_eq!(
        host.list(None, None),
        Ok(vec![
            (prepare_worker_bin_path, execute_worker_bin_path),
            (prepare_worker_lib_path, execute_worker_lib_path),
        ])
    );
}

#[test]
fn should_find_workers_with_custom_names_at_all_locations() {
    let mut host = FakeHost::new();
    let (prep_worker_name, exec_worker_name) = ("test-prepare", "test-execute");
    let prepare_worker_bin_path = at("usr/bin/test-prepare");
    host.write_worker_exe(&prepare_worker_bin_path);
    let execute_worker_bin_path = at("usr/bin/test-execute");
    host.write_worker_exe(&execute_worker_bin_path);
    let prepare_worker_lib_path = at("usr/lib/polkadot/test-prepare");
    host.write_worker_exe(&prepare_worker_lib_path);
    let execute_worker_lib_path = at("usr/lib/polkadot/test-execute");
    host.write_worker_exe(&execute_worker_lib_path);

    assert_eq!(
        host.list(None, Some((prep_worker_name.into(), exec_worker_name.into()))),
        Ok(vec![
            (prepare_worker_bin_path, execute_worker_bin_path),
            (prepare_worker_lib_path, execute_worker_lib_path),
        ])
    );
}

fn mismatch(worker_version: &str, worker_path: &Vec<u8>) -> SearchError<String> {
    Error::WorkerBinaryVersionMismatch {
        worker_version: worker_version.to_string(),
        node_version: TEST_NODE_VERSION.to_string(),
        worker_path: worker_path.clone(),
    }
}

#[test]
fn workers_version_mismatch_throws_error() {
    let bad_version = "v9.9.9.9";
    let mut host = FakeHost::new();

    // Workers at bin location return bad version.
    let prepare_worker_bin_path = at("usr/bin/polkadot-prepare-worker");
    let execute_worker_bin_path = at("usr/bin/polkadot-execute-worker");
    host.write_worker_exe_invalid_version(&prepare_worker_bin_path, bad_version);
    host.write_worker_exe(&execute_worker_bin_path);
    assert_eq!(
        host.determine(None, None, node_version()),
        Err(mismatch(bad_version, &prepare_worker_bin_path))
    );

    // Workers at lib location return bad version.
    host.remove_file(&prepare_worker_bin_path);
    host.remove_file(&execute_worker_bin_path);
    let prepare_worker_lib_path = at("usr/lib/polkadot/polkadot-prepare-worker");
    let execute_worker_lib_path = at("usr/lib/polkadot/polkadot-execute-worker");
    host.write_worker_exe(&prepare_worker_lib_path);
    host.write_worker_exe_invalid_version(&execute_worker_lib_path, bad_version);
    assert_eq!(
        host.determine(None, None, node_version()),
        Err(mismatch(bad_version, &execute_worker_lib_path))
    );

    // Workers at provided workers location return bad version.
    let given_workers_path = at("usr/local/bin");
    let prepare_worker_path = at("usr/local/bin/polkadot-prepare-worker");
    let execute_worker_path = at("usr/local/bin/polkadot-execute-worker");
    host.write_worker_exe_invalid_version(&prepare_worker_path, bad_version);
    host.write_worker_exe_invalid_version(&execute_worker_path, bad_version);
    assert_eq!(
        host.determine(Some(given_workers_path), None, node_version()),
        Err(mismatch(bad_version, &prepare_worker_path))
    );

    // Given worker binary returns bad version.
    let given_workers_path = at("usr/local/bin/test-worker");
    host.write_worker_exe_invalid_version(&given_workers_path, bad_version);
    assert_eq!(
        host.determine(Some(given_workers_path.clone()), None, node_version()),
        Err(mismatch(bad_version, &given_workers_path))
    );
}

#[test]
fn should_find_valid_workers() {
    // Test bin location.
    let mut host = FakeHost::new();
    let prepare_worker_bin_path = at("usr/bin/polkadot-prepare-worker");
    host.write_worker_exe(&prepare_worker_bin_path);
    let execute_worker_bin_path = at("usr/bin/polkadot-execute-worker");
    host.write_worker_exe(&execute_worker_bin_path);
    assert_eq!(
        host.determine(None, None, node_version()),
        Ok((prepare_worker_bin_path, execute_worker_bin_path))
    );

    // Test lib location.
    let mut host = FakeHost::new();
    let prepare_worker_lib_path = at("usr/lib/polkadot/polkadot-prepare-worker");
    host.write_worker_exe(&prepare_worker_lib_path);
    let execute_worker_lib_path = at("usr/lib/polkadot/polkadot-execute-worker");
    host.write_worker_exe(&execute_worker_lib_path);
    assert_eq!(
        host.determine(None, None, node_version()),
        Ok((prepare_worker_lib_path, execute_worker_lib_path))
    );
}

#[test]
fn real_locations_are_searched_without_an_override() {
    let mut host = FakeHost::new();
    host.tmp_dir = None;
    let beside = (
        bytes("/opt/node/polkadot-prepare-worker"),
        bytes("/opt/node/polkadot-execute-worker"),
    );
    let packaged = (
        bytes("/usr/lib/polkadot/polkadot-prepare-worker"),
        bytes("/usr/lib/polkadot/polkadot-execute-worker"),
    );
    host.write_worker_exe(&packaged.0);
    host.write_worker_exe(&packaged.1);
    assert_eq!(host.determine(None, None, node_version()), Ok(packaged.clone()));
    host.write_worker_exe(&beside.0);
    host.write_worker_exe(&beside.1);
    assert_eq!(host.list(None, None), Ok(vec![beside.clone(), packaged]));
    assert_eq!(host.determine(None, None, node_version()), Ok(beside));
}

#[test]
fn pair_beside_the_node_wins_even_if_broken() {
    let mut host = FakeHost::new();
    let prep = at("usr/bin/polkadot-prepare-worker");
    let exec = at("usr/bin/polkadot-execute-worker");
    host.write_worker_exe(&prep);
    host.write_worker_exe(&exec);
    host.write_worker_exe(&at("usr/lib/polkadot/polkadot-prepare-worker"));
    host.write_worker_exe(&at("usr/lib/polkadot/polkadot-execute-worker"));
    host.set_executable(&exec, false);
    assert_eq!(
        host.determine(None, None, node_version()),
        Err(Error::InvalidWorkerBinaries { prep_worker_path: prep, exec_worker_path: exec })
    );
}

#[test]
fn version_check_is_skipped_without_a_version() {
    let mut host = FakeHost::new();
    let prep = at("usr/bin/polkadot-prepare-worker");
    let exec = at("usr/bin/polkadot-execute-worker");
    host.write_worker_exe_invalid_version(&prep, "v9.9.9.9");
    host.write_worker_exe_invalid_version(&exec, "v8.8.8.8");
    assert_eq!(host.determine(None, None, None), Ok((prep.clone(), exec.clone())));
    assert_eq!(host.determine(None, None, node_version()), Err(mismatch("v9.9.9.9", &prep)));
}

#[test]
fn failures_of_the_host_are_passed_on() {
    let mut host = FakeHost::new();
    let prep = at("usr/bin/polkadot-prepare-worker");
    let exec = at("usr/bin/polkadot-execute-worker");
    host.write_worker_exe(&prep);
    host.write_worker_exe(&exec);
    host.files.get_mut(&exec).unwrap().version = Err("killed".to_string());
    assert_eq!(
        host.determine(None, None, node_version()),
        Err(Error::Io("killed".to_string()))
    );
    host.files.get_mut(&prep).unwrap().version = Err("stuck".to_string());
    assert_eq!(host.determine(None, None, node_version()), Err(Error::Io("stuck".to_string())));

    host.current_exe = Err("no such program".to_string());
    let failed = || Error::Io("no such program".to_string());
    assert_eq!(host.list(None, None), Err(failed()));
    assert_eq!(host.determine(None, None, node_version()), Err(failed()));
    // With a given path the running program is only asked for once nothing is found.
    let worker = at("usr/local/bin/worker");
    assert_eq!(host.determine(Some(worker.clone()), None, node_version()), Err(failed()));
    host.write_worker_exe(&worker);
    assert_eq!(
        host.determine(Some(worker.clone()), None, node_version()),
        Ok((worker.clone(), worker))
    );
}

#[test]
fn half_a_pair_at_the_given_path_is_not_listed() {
    let mut host = FakeHost::new();
    let dir = at("usr/local/bin");
    let prep = at("usr/local/bin/polkadot-prepare-worker");
    let exec = at("usr/local/bin/polkadot-execute-worker");
    host.write_worker_exe(&prep);
    assert_eq!(host.list(Some(dir.clone()), None), Ok(vec![]));
    host.remove_file(&prep);
    host.write_worker_exe(&exec);
    assert_eq!(host.list(Some(dir.clone()), None), Ok(vec![]));
    host.write_worker_exe(&prep);
    assert_eq!(host.list(Some(dir), None), Ok(vec![(prep, exec)]));
}

#[test]
fn answers_to_other_questions_change_nothing() {
    let search: WorkerSearch<String> = determine_workers_paths(None, None, None, None);
    assert_eq!(search.query(), Some(Query::CurrentExe));
    let search = search.answer(Answer::Flag(true));
    assert_eq!(search.query(), Some(Query::CurrentExe));
    let search = search.answer(Answer::Version(Ok("v1".to_string())));
    assert_eq!(search.query(), Some(Query::CurrentExe));
    let search = search.answer(Answer::ExePath(Ok(bytes("/bin/node"))));
    assert_eq!(search.query(), Some(Query::Exists(bytes("/bin/polkadot-prepare-worker"))));
}

#[test]
fn overrides_and_worker_paths_are_built_from_their_roots() {
    let root = Some(bytes("/tmp/x"));
    assert_eq!(workers_exe_path_override(&root), Some(bytes("/tmp/x/usr/bin")));
    assert_eq!(workers_lib_path_override(&root), Some(bytes("/tmp/x/usr/lib/polkadot")));
    assert_eq!(workers_exe_path_override(&None), None);
    assert_eq!(workers_lib_path_override(&None), None);

    let exe: Result<Vec<u8>, String> = Ok(bytes("/opt/node/polkadot"));
    assert_eq!(get_exe_path(exe.clone(), &None), Ok(bytes("/opt/node")));
    assert_eq!(get_exe_path(exe, &root), Ok(bytes("/tmp/x/usr/bin")));
    assert_eq!(
        get_exe_path(Err("gone".to_string()), &root),
        Err(Error::Io("gone".to_string()))
    );

    assert_eq!(
        build_worker_paths(&bytes("/usr/bin"), &None),
        (bytes("/usr/bin/polkadot-prepare-worker"), bytes("/usr/bin/polkadot-execute-worker"))
    );
    assert_eq!(
        build_worker_paths(&bytes("/usr/bin/"), &Some(("a".to_string(), "/b".to_string()))),
        (bytes("/usr/bin/a"), bytes("/b"))
    );
}

#[test]
fn operators_hear_of_what_is_found() {
    let mut host = FakeHost::new();
    let bin = (at("usr/bin/polkadot-prepare-worker"), at("usr/bin/polkadot-execute-worker"));
    let lib = (
        at("usr/lib/polkadot/polkadot-prepare-worker"),
        at("usr/lib/polkadot/polkadot-execute-worker"),
    );
    assert_eq!(notices(&host, None, node_version()), vec![]);
    host.write_worker_exe(&bin.0);
    host.write_worker_exe(&lib.1);
    assert_eq!(
        notices(&host, None, node_version()),
        vec![
            Notice::HalfFound { found: bin.0.clone(), missing: bin.1.clone() },
            Notice::HalfFound { found: lib.1.clone(), missing: lib.0.clone() },
        ]
    );
    host.write_worker_exe(&bin.1);
    let bin_found =
        || Notice::PairFound { prep_worker_path: bin.0.clone(), exec_worker_path: bin.1.clone() };
    assert_eq!(
        notices(&host, None, node_version()),
        vec![bin_found(), Notice::HalfFound { found: lib.1.clone(), missing: lib.0.clone() }]
    );
    host.write_worker_exe(&lib.0);
    let several = || Notice::SeveralFound { first: bin.clone(), second: lib.clone() };
    let lib_found =
        || Notice::PairFound { prep_worker_path: lib.0.clone(), exec_worker_path: lib.1.clone() };
    assert_eq!(
        notices(&host, None, node_version()),
        vec![bin_found(), lib_found(), several()]
    );
    assert_eq!(
        notices(&host, None, None),
        vec![bin_found(), lib_found(), several(), Notice::VersionsUnchecked]
    );
    host.remove_file(&bin.0);
    host.remove_file(&bin.1);
    assert_eq!(notices(&host, None, node_version()), vec![lib_found()]);
    let given = at("usr/lib/polkadot");
    assert_eq!(
        notices(&host, Some(given.clone()), None),
        vec![Notice::GivenPath(given), Notice::VersionsUnchecked]
    );
}
