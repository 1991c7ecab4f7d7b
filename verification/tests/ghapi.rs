use up::ghapi::{
    is_ok, pagination, receive, Asset, FeedError, GhRelease, Github, Pagination, Release, Response,
    Timestamp, GITHUB_ACCEPT, GITHUB_API, NOT_MODIFIED,
};
use up::text::decimal_string;

fn releases_of(owner: &str, name: &str) -> GhRelease {
    Github::default().repo(owner.to_string(), name.to_string()).releases()
}

fn at(secs: i64) -> Timestamp {
    Timestamp { secs, nanos: 0 }
}

fn release(name: &str, desc: Option<&str>) -> Release {
    Release {
        id: 42,
        url: "https://api.github.com/repos/o/r/releases/42".to_string(),
        name: name.to_string(),
        desc: desc.map(|d| d.to_string()),
        tagname: Some("v1".to_string()),
        prerelease: false,
        published_at: at(1_600_000_000),
        gh: None,
    }
}

fn asset(name: &str, size: usize, label: Option<&str>) -> Asset {
    Asset {
        name: name.to_string(),
        url: String::new(),
        size,
        label: label.map(|l| l.to_string()),
        updated_at: at(1_600_000_100),
        browser_download_url: format!("https://example.org/{}", name),
    }
}

fn response(status: u16, last_modified: Option<Timestamp>, body: &str) -> Response {
    Response { status, last_modified, body: body.to_string() }
}

#[test]
fn github_defaults() {
    assert_eq!(Github::default().api, "https://api.github.com/");
    assert_eq!(Github::default().api, GITHUB_API);
    assert_eq!(Github::new("https://example.org/api/").api, "https://example.org/api/");
    assert_eq!(GITHUB_ACCEPT, "application/vnd.github.v3+json");
}

#[test]
fn pagination_getters_and_builders() {
    let mut page = Pagination::default();
    assert_eq!(page.page(), 1);
    assert_eq!(page.per_page(), 20);
    page.set_page(3);
    assert_eq!(page.page(), 3);
    assert_eq!(page.per_page(), 20);
    assert_eq!(Pagination::new(2, 50), pagination(2, 50));
    assert_eq!(Pagination::of_page(7), Pagination::new(7, 20));
    assert_eq!(Pagination::of_per_page(100), Pagination::new(1, 100));
}

#[test]
fn pagination_query() {
    assert_eq!(Pagination::default().query(), "page=1&per_page=20");
    assert_eq!(Pagination::new(0, 0).query(), "page=0&per_page=0");
    assert_eq!(Pagination::new(12, 345).query(), "page=12&per_page=345");
}

#[test]
fn decimal_string_writes_numbers() {
    assert_eq!(decimal_string(0), "0");
    assert_eq!(decimal_string(9), "9");
    assert_eq!(decimal_string(10), "10");
    assert_eq!(decimal_string(1234567890), "1234567890");
    assert_eq!(decimal_string(u64::MAX), "18446744073709551615");
}

#[test]
fn request_paths() {
    let gh = releases_of("o", "r");
    assert_eq!(gh.repo.path(), "/repos/o/r");
    assert_eq!(gh.path(), "releases");
    assert_eq!(gh.releases(None, &None).path, "/repos/o/r/releases");
    assert_eq!(gh.latest(&None).path, "/repos/o/r/releases/latest");
    assert_eq!(gh.oftag("v1.2.3", &None).path, "/repos/o/r/releases/tags/v1.2.3");
    assert_eq!(gh.assets(42, None, &None).path, "/repos/o/r/releases/42/assets");
}

#[test]
fn requests_carry_page_and_cursor() {
    let gh = releases_of("o", "r");
    let page = Pagination::new(2, 30);
    let since = Some(at(1_600_000_000));
    let request = gh.releases(Some(page), &since);
    assert_eq!(request.page, Some(page));
    assert_eq!(request.since, since);
    let request = gh.latest(&since);
    assert_eq!(request.page, None);
    assert_eq!(request.since, since);
    let request = gh.oftag("v1", &None);
    assert_eq!(request.page, None);
    assert_eq!(request.since, None);
    let request = gh.assets(7, Some(page), &since);
    assert_eq!(request.page, Some(page));
    assert_eq!(request.since, since);
}

#[test]
fn release_assets_request() {
    let gh = releases_of("o", "r");
    let adopted = gh.adopt(release("one", None));
    assert_eq!(adopted.gh, Some(releases_of("o", "r")));
    let request = adopted.assets(&None);
    assert_eq!(request.path, "/repos/o/r/releases/42/assets");
    assert_eq!(request.page, Some(Pagination::default()));
    assert_eq!(request.since, None);
}

#[test]
fn adopt_all_marks_every_release() {
    let gh = releases_of("o", "r");
    let listed = vec![release("one", None), release("two", Some("second")), release("three", None)];
    let adopted = gh.adopt_all(listed.clone());
    assert_eq!(adopted.len(), 3);
    for (before, after) in listed.iter().zip(adopted.iter()) {
        assert_eq!(after.gh, Some(releases_of("o", "r")));
        assert_eq!(after.name, before.name);
        assert_eq!(after.desc, before.desc);
        assert_eq!(after.id, before.id);
    }
    assert!(gh.adopt_all(Vec::new()).is_empty());
}

#[test]
fn is_ok_sorts_by_status_class() {
    for status in [100u16, 200, 204, 299] {
        let resp = response(status, None, "body");
        assert_eq!(is_ok(resp.clone()), Ok(resp));
    }
    for status in [300u16, 304, 399, 400, 404, 499, 500, 503, 599] {
        let resp = response(status, None, "why");
        assert_eq!(is_ok(resp), Err(FeedError { status, body: "why".to_string() }));
    }
    let resp = response(600, None, "odd");
    assert_eq!(is_ok(resp.clone()), Ok(resp));
}

#[test]
fn receive_rolls_the_cursor_forward() {
    let mut cursor = None;
    let body = receive(response(200, Some(at(100)), "[]"), &mut cursor);
    assert_eq!(body, Ok("[]".to_string()));
    assert_eq!(cursor, Some(at(100)));
    let body = receive(response(200, Some(at(200)), "[1]"), &mut cursor);
    assert_eq!(body, Ok("[1]".to_string()));
    assert_eq!(cursor, Some(at(200)));
    let body = receive(response(200, None, "[2]"), &mut cursor);
    assert_eq!(body, Ok("[2]".to_string()));
    assert_eq!(cursor, Some(at(200)));
}

#[test]
fn receive_failure_keeps_the_cursor() {
    let mut cursor = Some(at(100));
    let answer = receive(response(404, Some(at(300)), "Not Found"), &mut cursor);
    assert_eq!(answer, Err(FeedError { status: 404, body: "Not Found".to_string() }));
    assert_eq!(cursor, Some(at(100)));
}

#[test]
fn second_list_against_unchanged_feed_keeps_cursor() {
    let mut cursor = None;
    assert!(receive(response(200, Some(at(100)), "[]"), &mut cursor).is_ok());
    let first = cursor;
    let answer = receive(response(NOT_MODIFIED, None, ""), &mut cursor);
    assert_eq!(answer, Err(FeedError { status: 304, body: String::new() }));
    assert_eq!(cursor, first);
    assert!(receive(response(200, Some(at(100)), "[]"), &mut cursor).is_ok());
    assert_eq!(cursor, first);
}

#[test]
fn release_notice_is_the_nonempty_description() {
    assert_eq!(release("one", Some("fixes")).notice(), Some("fixes"));
    assert_eq!(release("one", Some("")).notice(), None);
    assert_eq!(release("one", None).notice(), None);
    assert_eq!(release("one", None).url(), "https://api.github.com/repos/o/r/releases/42");
}

#[test]
fn release_line() {
    assert_eq!(
        release("v1.0", Some("first")).line_with("2020-09-13 12:26:40"),
        "v1.0\tfirst\t(2020-09-13 12:26:40)"
    );
    assert_eq!(release("v1.0", None).line_with("now"), "v1.0\t\t(now)");
}

#[test]
fn release_to_string_shows_the_local_time() {
    let line = release("v1.0", Some("first")).to_string();
    let prefix = "v1.0\tfirst\t(";
    assert!(line.starts_with(prefix), "{}", line);
    assert!(line.ends_with(')'), "{}", line);
    let date = &line[prefix.len()..line.len() - 1];
    assert_eq!(date.len(), 19, "{}", date);
    assert!(date.starts_with("2020-09-1"), "{}", date);
    let bytes = date.as_bytes();
    assert_eq!(bytes[4], b'-');
    assert_eq!(bytes[10], b' ');
    assert_eq!(bytes[13], b':');
    assert_eq!(bytes[16], b':');
}

#[test]
fn release_to_string_outside_the_calendar() {
    let mut far = release("v1.0", None);
    far.published_at = Timestamp { secs: i64::MAX, nanos: 0 };
    assert_eq!(far.to_string(), "v1.0\t\t()");
}

#[test]
fn asset_line() {
    assert_eq!(
        asset("foo.tar.gz", 1, Some("Linux build")).line_with("1.0 KiB"),
        "1.0 KiB\tfoo.tar.gz\t\t(Linux build)"
    );
    assert_eq!(asset("foo.tar.gz", 1, Some("")).line_with("5 B"), "5 B\tfoo.tar.gz\t\t");
    assert_eq!(asset("foo.tar.gz", 1, None).line_with("5 B"), "5 B\tfoo.tar.gz\t\t");
}

#[test]
fn asset_to_string_shows_the_size() {
    assert_eq!(asset("foo", 500, None).to_string(), "500 B\tfoo\t\t");
    assert_eq!(asset("foo", 1024, Some("x")).to_string(), "1.0 kiB\tfoo\t\t(x)");
    assert_eq!(asset("foo", 1536 * 1024, None).to_string(), "1.5 MiB\tfoo\t\t");
}
