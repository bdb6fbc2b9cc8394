use apkpure::{
    collect_versions, display_name, file_name, join_versions, list_page_versions, next_step,
    page_served, pinned_pattern, plan_download, render_page_versions, resolve, select_url, str_lt,
    versions_url, AttemptResult, Gate, Outcome, ResolveError, DOWNLOAD_URL_PATTERN,
    MAX_ATTEMPTS, VERSIONS_URL_PREFIX,
};

fn two_block_page() -> String {
    let mut page = String::new();
    page.push_str("header x1.0.0:(meta APKJabhttps://dl.example.com/b/APK/one.apk?k=1\n");
    page.push_str("more text y2.0.0:(meta\nsecond line APKJcdhttps://dl.example.com/b/APK/two.apk?k=2\n");
    page
}

/// Runs the retry policy against scripted results and returns the outcome and
/// the number of calls made.
fn drive(results: &[AttemptResult]) -> (Outcome, usize) {
    let mut attempt: u8 = 1;
    let mut calls: usize = 0;
    loop {
        let r = results[calls];
        calls += 1;
        match next_step(attempt, r) {
            Outcome::TransientFailure(n) => {
                assert_eq!(n, attempt);
                attempt += 1;
            }
            o => return (o, calls),
        }
    }
}

#[test]
fn latest_reference_is_resolved() {
    let page = "junk APKJ\u{1}\u{2}https://dl.example.com/b/APK/app.apk?k=abc trailing";
    assert_eq!(
        resolve(page, None),
        Ok("https://dl.example.com/b/APK/app.apk?k=abc".to_string())
    );
}

#[test]
fn latest_takes_first_reference() {
    assert_eq!(
        resolve(&two_block_page(), None),
        Ok("https://dl.example.com/b/APK/one.apk?k=1".to_string())
    );
}

#[test]
fn pinned_version_selects_its_block() {
    let page = two_block_page();
    assert_eq!(
        resolve(&page, Some("2.0.0")),
        Ok("https://dl.example.com/b/APK/two.apk?k=2".to_string())
    );
    assert_eq!(
        resolve(&page, Some("1.0.0")),
        Ok("https://dl.example.com/b/APK/one.apk?k=1".to_string())
    );
}

#[test]
fn pinned_version_missing_is_no_match() {
    assert_eq!(resolve(&two_block_page(), Some("3.0.0")), Err(ResolveError::NoMatch));
}

#[test]
fn page_without_reference_is_no_match() {
    assert_eq!(resolve("nothing to see here", None), Err(ResolveError::NoMatch));
}

#[test]
fn pinned_version_after_digit_is_not_matched() {
    let page = "91.0.0:(meta APKJabhttps://dl.example.com/b/APK/x.apk\n";
    assert_eq!(resolve(page, Some("1.0.0")), Err(ResolveError::NoMatch));
}

#[test]
fn pinned_pattern_escapes_version() {
    let mut expected = String::from("[[:^digit:]]1\\.2\\-beta:(?s:.)+?");
    expected.push_str(DOWNLOAD_URL_PATTERN);
    assert_eq!(pinned_pattern("1.2-beta"), expected);
}

#[test]
fn select_url_takes_group_one() {
    let groups = vec![Some("whole".to_string()), Some("url".to_string())];
    assert_eq!(select_url(Some(groups)), Some("url".to_string()));
    assert_eq!(select_url(Some(vec![Some("whole".to_string())])), None);
    assert_eq!(select_url(Some(vec![Some("whole".to_string()), None])), None);
    assert_eq!(select_url(None), None);
}

#[test]
fn at_most_three_attempts() {
    let all_fail = [AttemptResult::Failed; 5];
    assert_eq!(drive(&all_fail), (Outcome::Exhausted, 3));
    assert_eq!(MAX_ATTEMPTS, 3);
}

#[test]
fn terminal_first_attempt_is_the_only_one() {
    assert_eq!(drive(&[AttemptResult::Completed]), (Outcome::Success, 1));
    assert_eq!(drive(&[AttemptResult::FileExists]), (Outcome::AlreadyExists, 1));
    assert_eq!(drive(&[AttemptResult::PermissionDenied]), (Outcome::PermissionDenied, 1));
}

#[test]
fn third_attempt_success() {
    let results = [AttemptResult::Failed, AttemptResult::Failed, AttemptResult::Completed];
    assert_eq!(drive(&results), (Outcome::Success, 3));
}

#[test]
fn second_attempt_terminal_conditions() {
    let results = [AttemptResult::Failed, AttemptResult::PermissionDenied];
    assert_eq!(drive(&results), (Outcome::PermissionDenied, 2));
    assert_eq!(next_step(2, AttemptResult::Failed), Outcome::TransientFailure(2));
    assert_eq!(next_step(3, AttemptResult::Failed), Outcome::Exhausted);
}

#[test]
fn duplicate_versions_listed_once_sorted() {
    let sum = "0123456789abcdef0123456789abcdef01234567";
    let page = format!("2.0:({} 1.0:({}ff 1.0:({} bad:(12", sum, sum, sum);
    assert_eq!(render_page_versions(&page), Ok("1.0, 2.0".to_string()));
    assert_eq!(
        list_page_versions(&page),
        Ok(vec!["1.0".to_string(), "2.0".to_string()])
    );
}

#[test]
fn page_without_versions_lists_nothing() {
    assert_eq!(list_page_versions("no versions"), Ok(vec![]));
    assert_eq!(render_page_versions("no versions"), Ok(String::new()));
}

#[test]
fn collect_versions_dedups_and_sorts() {
    let m = |v: &str| vec![Some(format!("{}:(", v)), Some(v.to_string())];
    let matches = vec![m("1.0"), m("1.0"), m("2.0"), vec![Some("x".to_string())], m("0.9")];
    assert_eq!(
        collect_versions(&matches),
        vec!["0.9".to_string(), "1.0".to_string(), "2.0".to_string()]
    );
}

#[test]
fn join_versions_separates_with_comma() {
    assert_eq!(join_versions(&vec![]), "");
    assert_eq!(join_versions(&vec!["a".to_string()]), "a");
    assert_eq!(join_versions(&vec!["a".to_string(), "b".to_string()]), "a, b");
}

#[test]
fn str_lt_is_lexicographic() {
    assert!(str_lt("1.0", "2.0"));
    assert!(!str_lt("2.0", "1.0"));
    assert!(str_lt("1.0", "1.0.1"));
    assert!(!str_lt("1.0", "1.0"));
    assert!(str_lt("10.0", "9.0"));
    assert!(str_lt("", "a"));
}

#[test]
fn concurrency_never_exceeds_limit() {
    let mut gate = Gate::new(5, 2);
    let mut started = Vec::new();
    let mut peak = 0;
    while !gate.is_done() {
        while let Some(n) = gate.try_start() {
            started.push(n);
            peak = peak.max(gate.active());
            assert!(gate.active() <= 2);
        }
        assert!(gate.active() > 0);
        gate.finish();
    }
    assert_eq!(started, vec![0, 1, 2, 3, 4]);
    assert_eq!(peak, 2);
    assert_eq!(gate.try_start(), None);
}

#[test]
fn gate_refuses_third_task() {
    let mut gate = Gate::new(5, 2);
    assert_eq!(gate.try_start(), Some(0));
    assert_eq!(gate.try_start(), Some(1));
    assert_eq!(gate.try_start(), None);
    gate.finish();
    assert_eq!(gate.try_start(), Some(2));
    assert_eq!(gate.active(), 2);
}

#[test]
fn file_names() {
    assert_eq!(file_name("foo", None), "foo.apk");
    assert_eq!(file_name("foo", Some("1.2.3")), "foo@1.2.3.apk");
    assert_eq!(display_name("foo", Some("1.2.3")), "foo@1.2.3");
    assert_eq!(display_name("foo", None), "foo");
}

#[test]
fn versions_url_appends_package() {
    assert_eq!(versions_url("com.example"), format!("{}com.example", VERSIONS_URL_PREFIX));
}

#[test]
fn only_ok_status_is_served() {
    assert!(page_served(200));
    assert!(!page_served(404));
    assert!(!page_served(500));
}

#[test]
fn plan_download_outcomes() {
    let page = two_block_page();
    assert_eq!(plan_download(None, None), Err(Outcome::BadResponse));
    assert_eq!(plan_download(Some(&page), Some("9.9")), Err(Outcome::NoMatch));
    assert_eq!(
        plan_download(Some(&page), Some("2.0.0")),
        Ok("https://dl.example.com/b/APK/two.apk?k=2".to_string())
    );
}
