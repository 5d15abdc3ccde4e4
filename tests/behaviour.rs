use minigrep::{collect_match, AppError, DataReader, InMemoryReader, Search, SearchParams, SearchParamsBuilder};

fn strings(items: &[&str]) -> Vec<String> {
    items.iter().map(|s| s.to_string()).collect()
}

fn client_message(result: Result<Search, AppError>) -> String {
    match result {
        Err(AppError::Client(m)) => m,
        Err(AppError::Server(m)) => panic!("unexpected server error: {}", m),
        Ok(_) => panic!("expected a client error"),
    }
}

fn run_in_memory(args: &[&str], data: &[&str]) -> Vec<String> {
    let result = SearchParamsBuilder::new()
        .args(&strings(args))
        .in_memory_data(strings(data))
        .build();
    match result {
        Ok(Search::InMemory(mut search)) => {
            let mut out: Vec<String> = vec![];
            search.exec(&mut out);
            out
        }
        Ok(Search::File { .. }) => panic!("expected a search of the in-memory data"),
        Err(err) => panic!("{}", err.message()),
    }
}

#[test]
fn no_arguments_is_a_client_error() {
    let m = client_message(SearchParamsBuilder::new().build());
    assert_eq!("no arguments provided", m);
}

#[test]
fn empty_argument_list_reports_the_count() {
    let m = client_message(SearchParamsBuilder::new().args(&[]).build());
    assert_eq!("expected 1 or 2 arguments, got 0", m);
}

#[test]
fn three_arguments_report_the_count() {
    let m = client_message(
        SearchParamsBuilder::new()
            .args(&strings(&["a", "b", "c"]))
            .in_memory_data(strings(&["a"]))
            .build(),
    );
    assert_eq!("expected 1 or 2 arguments, got 3", m);
    assert!(m.contains("1 or 2"));
    assert!(m.contains('3'));
}

#[test]
fn many_arguments_report_a_count_of_two_digits() {
    let args: Vec<String> = (0..12).map(|i| format!("a{}", i)).collect();
    let m = client_message(SearchParamsBuilder::new().args(&args).build());
    assert_eq!("expected 1 or 2 arguments, got 12", m);
}

#[test]
fn one_argument_without_data_is_a_client_error() {
    let m = client_message(SearchParamsBuilder::new().args(&strings(&["query"])).build());
    assert_eq!("no file path or in-memory data provided", m);
}

#[test]
fn open_failure_names_path_and_cause() {
    let e = AppError::open_failed("/no/such/file", "No such file or directory (os error 2)");
    match &e {
        AppError::Client(m) => {
            assert_eq!("failed to open /no/such/file: No such file or directory (os error 2)", m);
        }
        AppError::Server(_) => panic!("expected a client error"),
    }
    assert_eq!(
        "Client Error: failed to open /no/such/file: No such file or directory (os error 2)",
        e.message()
    );
}

#[test]
fn server_error_message_names_its_class() {
    let e = AppError::Server("backend down".to_string());
    assert_eq!("Server Error: backend down", e.message());
}

#[test]
fn first_line_matches_exactly() {
    assert_eq!(strings(&["line1"]), run_in_memory(&["line1"], &["line1", "line2"]));
}

#[test]
fn match_is_by_substring() {
    assert_eq!(strings(&["food"]), run_in_memory(&["foo"], &["abc", "food", "xyz"]));
}

#[test]
fn two_arguments_choose_the_file_even_with_data() {
    let result = SearchParamsBuilder::new()
        .in_memory_data(strings(&["a", "b"]))
        .args(&strings(&["q", "/path/to/file"]))
        .build();
    match result {
        Ok(Search::File { query, path }) => {
            assert_eq!("q", query);
            assert_eq!("/path/to/file", path);
        }
        Ok(Search::InMemory(_)) => panic!("expected a search of the file"),
        Err(err) => panic!("{}", err.message()),
    }
}

#[test]
fn two_arguments_with_empty_query_choose_the_file() {
    let result = SearchParamsBuilder::new()
        .args(&strings(&["", "x"]))
        .in_memory_data(strings(&["a", "b"]))
        .build();
    match result {
        Ok(Search::File { query, path }) => {
            assert_eq!("", query);
            assert_eq!("x", path);
        }
        Ok(Search::InMemory(_)) => panic!("expected a search of the file"),
        Err(err) => panic!("{}", err.message()),
    }
}

#[test]
fn match_is_case_sensitive() {
    assert!(run_in_memory(&["Line"], &["line1"]).is_empty());
}

#[test]
fn empty_query_matches_every_line() {
    assert_eq!(strings(&["a", "", "b"]), run_in_memory(&[""], &["a", "", "b"]));
}

#[test]
fn matches_keep_source_order_and_duplicates() {
    assert_eq!(
        strings(&["xa", "ax", "xa"]),
        run_in_memory(&["x"], &["xa", "b", "ax", "xa", "y"])
    );
}

#[test]
fn query_longer_than_line_does_not_match() {
    assert!(run_in_memory(&["abcd"], &["abc", "bcd"]).is_empty());
}

#[test]
fn non_ascii_text_matches_by_characters() {
    assert_eq!(strings(&["grüße"]), run_in_memory(&["üß"], &["grüße", "grusse"]));
}

#[test]
fn later_settings_replace_earlier_ones() {
    let result = SearchParamsBuilder::new()
        .args(&strings(&["a", "b", "c"]))
        .in_memory_data(strings(&["zzz"]))
        .args(&strings(&["b"]))
        .in_memory_data(strings(&["abc", "xyz"]))
        .build();
    match result {
        Ok(Search::InMemory(mut search)) => {
            let mut out: Vec<String> = vec![];
            search.exec(&mut out);
            assert_eq!(strings(&["abc"]), out);
        }
        Ok(Search::File { .. }) => panic!("expected a search of the in-memory data"),
        Err(err) => panic!("{}", err.message()),
    }
}

#[test]
fn second_exec_adds_nothing() {
    let mut search = SearchParams::new("a".to_string(), InMemoryReader::new(strings(&["a", "b"])));
    let mut out: Vec<String> = strings(&["before"]);
    search.exec(&mut out);
    assert_eq!(strings(&["before", "a"]), out);
    search.exec(&mut out);
    assert_eq!(strings(&["before", "a"]), out);
    let mut reader = search.into_reader();
    assert_eq!(None, reader.next());
}

#[test]
fn collect_match_keeps_only_matching_lines() {
    let mut out: Vec<String> = vec![];
    collect_match("ell", "hello".to_string(), &mut out);
    collect_match("ell", "help".to_string(), &mut out);
    collect_match("ell", "bell".to_string(), &mut out);
    assert_eq!(strings(&["hello", "bell"]), out);
}
