use directory_filter::{
    BrokerClosed, ContinuousFilter, Directory, File, FilterEventBroker, FilteredDirectory,
    Lifecycle, Listener, SimpleFilter,
};

fn files(paths: &[&str]) -> Vec<File> {
    paths.iter().map(|path| File::new(path.to_string())).collect()
}

/// The tree that a scan of the fixture directory gives.
fn fixture_dir() -> Directory {
    let sub = Directory::new(
        "tests/fixture_dir/sub".to_string(),
        files(&[
            "tests/fixture_dir/sub/file-1.txt",
            "tests/fixture_dir/sub/other.txt",
        ]),
        vec![],
    );
    Directory::new(
        "tests/fixture_dir/".to_string(),
        files(&[
            "tests/fixture_dir/file-1.txt",
            "tests/fixture_dir/file-2.txt",
        ]),
        vec![sub],
    )
}

#[test]
fn simple_filtering_example() {
    let directory = fixture_dir();

    let filter = SimpleFilter::new(&directory, "file-1").unwrap();
    let filtered_directory = filter.execute();

    assert_eq!(filtered_directory.len(), 2);
}

#[test]
fn advanced_filtering_example() {
    let directory = fixture_dir();

    let mut broker = FilterEventBroker::new();
    let mut filter_matches: Vec<FilteredDirectory> = vec![];

    let mut filter = ContinuousFilter::new(directory);
    filter_matches.push(filter.start().unwrap());

    broker.send("file-1".to_string());
    while filter.listener_may_continue(Listener::Pattern) {
        match broker.recv() {
            Ok(Some(filter_string)) => {
                if let Some(snapshot) = filter.pattern_changed(filter_string).unwrap() {
                    filter_matches.push(snapshot);
                }
            }
            Ok(None) => break,
            Err(_) => filter.broker_closed(),
        }
    }

    let mut rec_filter_match = filter_matches.iter().peekable();
    let mut done = false;
    while !done {
        let found = rec_filter_match.next().unwrap().len();
        if found == 2 {
            assert_eq!(found, 2);
            done = true;
        } else {
            if rec_filter_match.peek().is_none() {
                assert_eq!(found, 2);
                done = true;
            }
        }
    }
    filter.stop();
    broker.close();
    assert_eq!(broker.recv(), Err(BrokerClosed));
    filter.broker_closed();
    filter.tree_source_closed();
    assert_eq!(filter.phase(), Lifecycle::Stopped);
}
