use orcs::search::{RipgrepSearchService, SearchFilters};

#[test]
fn parse_output_reads_path_line_and_content() {
    let svc = RipgrepSearchService::new();
    let out = "src/main.rs:12:fn main() {\n\nREADME.md:3:see: notes\nbroken line\nx:notanumber:text\r\n";
    let items = svc.parse_ripgrep_output(out).unwrap();
    assert_eq!(items.len(), 3);
    assert_eq!(items[0].path, "src/main.rs");
    assert_eq!(items[0].line_number, Some(12));
    assert_eq!(items[0].content, "fn main() {");
    assert_eq!(items[1].path, "README.md");
    assert_eq!(items[1].line_number, Some(3));
    assert_eq!(items[1].content, "see: notes");
    assert_eq!(items[2].path, "x");
    assert_eq!(items[2].line_number, None);
    assert_eq!(items[2].content, "text");
    assert!(items.iter().all(|i| i.context_before.is_none() && i.context_after.is_none()));
}

#[test]
fn parse_empty_output_gives_no_hits() {
    let svc = RipgrepSearchService::new();
    assert!(svc.parse_ripgrep_output("").unwrap().is_empty());
    assert!(svc.parse_ripgrep_output("   \n\t\n").unwrap().is_empty());
}

#[test]
fn content_args_without_filters() {
    let svc = RipgrepSearchService::new();
    let paths = vec!["/a".to_string(), "/b".to_string()];
    let args = svc.content_search_args("needle", &paths, &None);
    assert_eq!(
        args,
        vec!["--line-number", "--no-heading", "--with-filename", "needle", "/a", "/b"]
    );
}

#[test]
fn content_args_with_filters() {
    let svc = RipgrepSearchService::new();
    let paths = vec!["/a".to_string()];
    let filters = Some(SearchFilters {
        file_types: Some(vec!["rust".to_string()]),
        exclude_paths: Some(vec!["target".to_string()]),
        max_results: Some(5),
        context_before: Some(2),
        context_after: None,
    });
    let args = svc.content_search_args("q", &paths, &filters);
    assert_eq!(
        args,
        vec![
            "--line-number",
            "--no-heading",
            "--with-filename",
            "--type",
            "rust",
            "--glob",
            "!target",
            "--max-count",
            "5",
            "--before-context",
            "2",
            "q",
            "/a"
        ]
    );
}

#[test]
fn filename_args_list_files() {
    let svc = RipgrepSearchService::new();
    let paths = vec!["/p".to_string()];
    let filters = Some(SearchFilters {
        file_types: None,
        exclude_paths: Some(vec!["node_modules".to_string()]),
        max_results: Some(9),
        context_before: None,
        context_after: None,
    });
    let args = svc.filename_search_args(&paths, &filters);
    assert_eq!(args, vec!["--files", "--glob", "!node_modules", "/p"]);
}

#[test]
fn filename_matches_is_case_insensitive_on_the_file_name() {
    let svc = RipgrepSearchService::new();
    let listing = "src/Search.rs\ndocs/readme.md\nsearch/other.txt\n\n";
    let items = svc.filename_matches(listing, "SEARCH");
    assert_eq!(items.len(), 1);
    assert_eq!(items[0].path, "src/Search.rs");
    assert_eq!(items[0].line_number, None);
    assert_eq!(items[0].content, "[Filename match: Search.rs]");
}

#[test]
fn merge_puts_filename_hits_first() {
    let svc = RipgrepSearchService::new();
    let f = svc.filename_matches("a/x.rs\n", "x");
    let c = svc.parse_ripgrep_output("b.rs:1:x\n").unwrap();
    let all = RipgrepSearchService::merge_results(f, c);
    assert_eq!(all.len(), 2);
    assert_eq!(all[0].path, "a/x.rs");
    assert_eq!(all[1].path, "b.rs");
}
