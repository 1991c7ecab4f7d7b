use up::archive::ArchiveFormat;
use up::dl::DownloadError;
use up::ghapi::{Asset, FeedError, Release, Timestamp};
use up::install::{
    fitting_assets, offered_assets, resolve_asset, select_payload, strategy, Action, AssetChoice,
    Event, InstallError, Installer, Payload, ReleaseStrategy, Stage, EXECUTABLE_MODE,
};
use up::opt::{AppConfig, AppVersion, Options, Type};
use up::platform::{parse_triple, PlatformTriple};
use up::ui::ChoiceError;

fn linux() -> PlatformTriple {
    parse_triple("x86_64-unknown-linux-gnu").unwrap()
}

fn at(secs: i64) -> Timestamp {
    Timestamp { secs, nanos: 0 }
}

fn options(version: Option<&str>, latest: bool) -> Options {
    Options {
        name: "foo".to_string(),
        repo: "o/r".to_string(),
        latest,
        version: version.map(|v| v.to_string()),
        asset_name: None,
        allow_prerelease: false,
        after_downloaded: None,
        kind: Type::Executable,
        unpack: None,
        binname: None,
        app_version: None,
    }
}

fn release(name: &str, desc: Option<&str>) -> Release {
    Release {
        id: 7,
        url: String::new(),
        name: name.to_string(),
        desc: desc.map(|d| d.to_string()),
        tagname: Some(name.to_string()),
        prerelease: false,
        published_at: at(1_000),
        gh: None,
    }
}

fn asset(name: &str) -> Asset {
    Asset {
        name: name.to_string(),
        url: String::new(),
        size: 1,
        label: None,
        updated_at: at(2_000),
        browser_download_url: format!("https://example.org/dl/{}", name),
    }
}

fn three_platforms() -> Vec<Asset> {
    vec![
        asset("a-1.0-x86_64-unknown-linux-gnu.tar.gz"),
        asset("a-1.0-x86_64-apple-darwin.tar.gz"),
        asset("a-1.0-x86_64-pc-windows-msvc.zip"),
    ]
}

fn names(members: &[&str]) -> Vec<String> {
    members.iter().map(|m| m.to_string()).collect()
}

fn run(installer: Installer, events: Vec<Event>) -> (Installer, Vec<Action>) {
    let mut installer = installer;
    let mut actions = Vec::new();
    for event in events {
        let (next, action) = installer.step(event);
        installer = next;
        actions.push(action);
    }
    (installer, actions)
}

#[test]
fn strategy_follows_the_intent() {
    assert_eq!(
        strategy(&options(Some("v1"), false)),
        ReleaseStrategy::Tag("v1".to_string())
    );
    assert_eq!(strategy(&options(Some("v1"), true)), ReleaseStrategy::Tag("v1".to_string()));
    assert_eq!(strategy(&options(None, true)), ReleaseStrategy::Latest);
    assert_eq!(strategy(&options(None, false)), ReleaseStrategy::Choose);
}

#[test]
fn single_fitting_asset_is_selected_without_prompt() {
    let assets = three_platforms();
    assert_eq!(fitting_assets(&linux(), "a", "1.0", &assets), vec![0]);
    assert_eq!(resolve_asset(&linux(), "a", "1.0", &None, &assets), AssetChoice::Take(0));
    let darwin = parse_triple("x86_64-apple-darwin").unwrap();
    assert_eq!(fitting_assets(&darwin, "a", "1.0", &assets), vec![1]);
    assert_eq!(resolve_asset(&darwin, "a", "1.0", &None, &assets), AssetChoice::Take(1));
}

#[test]
fn several_fitting_assets_are_offered() {
    let mut assets = three_platforms();
    assets.push(asset("a-1.0-x86_64-unknown-linux-musl.tar.gz"));
    assert_eq!(fitting_assets(&linux(), "a", "1.0", &assets), vec![0, 3]);
    assert_eq!(
        resolve_asset(&linux(), "a", "1.0", &None, &assets),
        AssetChoice::Ask { narrowed: true }
    );
    assert_eq!(offered_assets(&linux(), "a", "1.0", &assets, true), vec![0, 3]);
}

#[test]
fn no_fitting_asset_offers_all() {
    let assets = vec![asset("a-linux-amd64.tar.gz"), asset("a-darwin.zip"), asset("sums.txt")];
    assert!(fitting_assets(&linux(), "a", "1.0", &assets).is_empty());
    assert_eq!(
        resolve_asset(&linux(), "a", "1.0", &None, &assets),
        AssetChoice::Ask { narrowed: false }
    );
    assert_eq!(offered_assets(&linux(), "a", "1.0", &assets, false), vec![0, 1, 2]);
    assert_eq!(
        resolve_asset(&linux(), "a", "1.0", &None, &Vec::new()),
        AssetChoice::Ask { narrowed: false }
    );
}

#[test]
fn pinned_asset_is_selected_by_exact_name() {
    let assets = three_platforms();
    let pinned = Some("a-1.0-x86_64-pc-windows-msvc.zip".to_string());
    assert_eq!(resolve_asset(&linux(), "a", "1.0", &pinned, &assets), AssetChoice::Take(2));
    let absent = Some("a-1.0-x86_64-pc-windows-msvc".to_string());
    assert_eq!(resolve_asset(&linux(), "a", "1.0", &absent, &assets), AssetChoice::Take(0));
}

#[test]
fn payload_of_downloads() {
    assert_eq!(select_payload(Vec::new(), &None), Ok(Payload::Whole));
    assert_eq!(select_payload(Vec::new(), &Some("foo".to_string())), Ok(Payload::Whole));
    assert_eq!(
        select_payload(names(&["data"]), &Some("foo".to_string())),
        Ok(Payload::Member("data".to_string()))
    );
    assert_eq!(
        select_payload(names(&["bin"]), &Some("foo".to_string())),
        Ok(Payload::Member("foo".to_string()))
    );
    assert_eq!(
        select_payload(names(&["foo"]), &None),
        Ok(Payload::Member("foo".to_string()))
    );
    assert_eq!(
        select_payload(names(&["foo", "README"]), &Some("foo".to_string())),
        Ok(Payload::Member("foo".to_string()))
    );
    assert_eq!(
        select_payload(names(&["data", "README"]), &None),
        Err(InstallError::AmbiguousArchiveContents)
    );
}

#[test]
fn install_latest_end_to_end() {
    let installer = Installer::new(options(None, true), linux());
    let found = release("v1.0", Some("First release."));
    let (installer, actions) = run(
        installer,
        vec![
            Event::Start,
            Event::Release { release: found.clone(), cursor: Some(at(500)) },
            Event::Assets(vec![asset("foo-v1.0-x86_64-apple-darwin.tar.gz"), asset("foo.tar.gz")]),
        ],
    );
    // Neither name carries the host's triple, so the operator is asked, among all assets.
    assert_eq!(
        actions,
        vec![
            Action::FetchLatest { since: None },
            Action::FetchAssets { release: 7, notice: Some("First release.".to_string()) },
            Action::ChooseAsset,
        ]
    );
    assert_eq!(installer.offered(), vec![0, 1]);
    let (installer, actions) = run(
        installer,
        vec![
            Event::Picked(Some(1)),
            Event::Downloaded,
            Event::Members(names(&["foo"])),
            Event::Unpacked,
            Event::Written { files: names(&["/home/u/.local/bin/foo"]) },
            Event::Persisted,
        ],
    );
    let mut kept = options(None, true);
    kept.asset_name = Some("foo.tar.gz".to_string());
    assert_eq!(
        actions,
        vec![
            Action::Download {
                url: "https://example.org/dl/foo.tar.gz".to_string(),
                name: "foo.tar.gz".to_string(),
            },
            Action::Inspect { format: Some(ArchiveFormat::TarGzip) },
            Action::Unpack { payload: Payload::Member("foo".to_string()) },
            Action::Replace { target: "foo".to_string(), mode: 0o755 },
            Action::Record {
                config: AppConfig {
                    name: "foo".to_string(),
                    repo: "o/r".to_string(),
                    asset_name: "foo.tar.gz".to_string(),
                    allow_prerelease: false,
                    after_downloaded: None,
                    kind: Type::Executable,
                    unpack: None,
                    binname: None,
                },
                version: AppVersion {
                    name: "foo".to_string(),
                    version: "v1.0".to_string(),
                    files: names(&["/home/u/.local/bin/foo"]),
                    updated_at: at(2_000),
                    last_latest_at: Some(at(500)),
                    last_releases_at: None,
                },
            },
            Action::Finish,
        ]
    );
    assert_eq!(installer.stage, Stage::Done);
    assert_eq!(installer.opts, kept);
    assert!(installer.is_over());
    assert_eq!(EXECUTABLE_MODE, 0o755);
}

#[test]
fn install_latest_with_one_compatible_asset() {
    let installer = Installer::new(options(None, true), linux());
    let (installer, actions) = run(
        installer,
        vec![
            Event::Start,
            Event::Release { release: release("1.0", None), cursor: None },
            Event::Assets(vec![
                asset("foo-1.0-x86_64-apple-darwin.tar.gz"),
                asset("foo-1.0-x86_64-unknown-linux-gnu.tar.gz"),
            ]),
        ],
    );
    assert_eq!(actions[1], Action::FetchAssets { release: 7, notice: None });
    assert_eq!(
        actions[2],
        Action::Download {
            url: "https://example.org/dl/foo-1.0-x86_64-unknown-linux-gnu.tar.gz".to_string(),
            name: "foo-1.0-x86_64-unknown-linux-gnu.tar.gz".to_string(),
        }
    );
    assert_eq!(
        installer.opts.asset_name,
        Some("foo-1.0-x86_64-unknown-linux-gnu.tar.gz".to_string())
    );
    assert!(installer.offered().is_empty());
}

#[test]
fn install_by_tag_leaves_the_cursors_alone() {
    let mut opts = options(Some("v2"), true);
    opts.app_version = Some(AppVersion {
        name: "foo".to_string(),
        version: "v1".to_string(),
        files: Vec::new(),
        updated_at: at(1),
        last_latest_at: Some(at(2)),
        last_releases_at: Some(at(3)),
    });
    let installer = Installer::new(opts, linux());
    assert_eq!(installer.last_latest_at, Some(at(2)));
    assert_eq!(installer.last_releases_at, Some(at(3)));
    let (installer, actions) = run(
        installer,
        vec![Event::Start, Event::Release { release: release("v2", None), cursor: Some(at(9)) }],
    );
    assert_eq!(actions[0], Action::FetchTag { tag: "v2".to_string() });
    assert_eq!(installer.last_latest_at, Some(at(2)));
    assert_eq!(installer.last_releases_at, Some(at(3)));
    assert_eq!(installer.stage, Stage::ResolveAsset { release: release("v2", None) });
}

#[test]
fn install_chosen_release() {
    let installer = Installer::new(options(None, false), linux());
    let listed = vec![release("v3", None), release("v2", Some("")), release("v1", None)];
    let (installer, actions) = run(
        installer,
        vec![
            Event::Start,
            Event::Release { release: release("v9", None), cursor: None },
            Event::Releases { releases: listed.clone(), cursor: Some(at(77)) },
        ],
    );
    assert_eq!(
        actions,
        vec![Action::ListReleases { since: None }, Action::Nothing, Action::ChooseRelease]
    );
    assert_eq!(installer.stage, Stage::ChooseRelease { releases: listed });
    assert_eq!(installer.last_releases_at, Some(at(77)));
    let (installer, actions) = run(installer, vec![Event::Picked(Some(1))]);
    assert_eq!(actions, vec![Action::FetchAssets { release: 7, notice: None }]);
    assert_eq!(installer.stage, Stage::ResolveAsset { release: release("v2", Some("")) });
}

#[test]
fn install_without_a_choice_is_given_up() {
    let installer = Installer::new(options(None, false), linux());
    let (installer, actions) = run(
        installer,
        vec![
            Event::Start,
            Event::Releases { releases: vec![release("v1", None)], cursor: None },
            Event::Picked(None),
            Event::Picked(Some(0)),
        ],
    );
    assert_eq!(
        actions[2],
        Action::Fail { error: InstallError::Choice(ChoiceError::Cancelled), unstage: false }
    );
    assert_eq!(actions[3], Action::Nothing);
    assert_eq!(installer.stage, Stage::Failed);

    let installer = Installer::new(options(None, false), linux());
    let (_, actions) = run(
        installer,
        vec![Event::Start, Event::Releases { releases: Vec::new(), cursor: None }],
    );
    assert_eq!(
        actions[1],
        Action::Fail { error: InstallError::Choice(ChoiceError::NoChoices), unstage: false }
    );

    let installer = Installer::new(options(None, true), linux());
    let (_, actions) = run(
        installer,
        vec![
            Event::Start,
            Event::Release { release: release("v1", None), cursor: None },
            Event::Assets(Vec::new()),
        ],
    );
    assert_eq!(
        actions[2],
        Action::Fail { error: InstallError::Choice(ChoiceError::NoChoices), unstage: false }
    );
}

#[test]
fn unmodified_listing_counts_as_empty() {
    let not_modified = InstallError::Feed(FeedError { status: 304, body: String::new() });
    let installer = Installer::new(options(None, false), linux());
    let (installer, actions) =
        run(installer, vec![Event::Start, Event::Failed(not_modified.clone())]);
    assert_eq!(
        actions[1],
        Action::Fail { error: InstallError::Choice(ChoiceError::NoChoices), unstage: false }
    );
    assert_eq!(installer.last_releases_at, None);

    let installer = Installer::new(options(None, true), linux());
    let (_, actions) = run(installer, vec![Event::Start, Event::Failed(not_modified.clone())]);
    assert_eq!(actions[1], Action::Fail { error: not_modified, unstage: false });
}

#[test]
fn failure_after_download_clears_the_staging_place() {
    let begin = vec![
        Event::Start,
        Event::Release { release: release("1.0", None), cursor: None },
        Event::Assets(vec![asset("foo-1.0-x86_64-unknown-linux-gnu.zip")]),
    ];
    let broken = InstallError::Download(DownloadError::UnknownLength);
    let (installer, _) = run(Installer::new(options(None, true), linux()), begin.clone());
    let (installer, actions) = run(installer, vec![Event::Failed(broken.clone())]);
    assert_eq!(actions, vec![Action::Fail { error: broken, unstage: true }]);
    assert_eq!(installer.stage, Stage::Failed);

    let (installer, _) = run(Installer::new(options(None, true), linux()), begin);
    let (installer, actions) = run(
        installer,
        vec![Event::Downloaded, Event::Members(names(&["foo", "LICENSE"]))],
    );
    assert_eq!(actions[0], Action::Inspect { format: Some(ArchiveFormat::Zip) });
    assert_eq!(
        actions[1],
        Action::Fail { error: InstallError::AmbiguousArchiveContents, unstage: true }
    );
    assert_eq!(installer.stage, Stage::Failed);
}

#[test]
fn failure_before_download_leaves_nothing_to_clear() {
    let gone = InstallError::Feed(FeedError { status: 404, body: "Not Found".to_string() });
    let installer = Installer::new(options(Some("v0"), false), linux());
    let (installer, actions) = run(installer, vec![Event::Start, Event::Failed(gone.clone())]);
    assert_eq!(actions[1], Action::Fail { error: gone, unstage: false });
    assert_eq!(installer.stage, Stage::Failed);
}

#[test]
fn plain_binary_is_installed_whole_under_the_configured_name() {
    let mut opts = options(None, true);
    opts.binname = Some("f".to_string());
    let (installer, actions) = run(
        Installer::new(opts, linux()),
        vec![
            Event::Start,
            Event::Release { release: release("1.0", None), cursor: None },
            Event::Assets(vec![asset("foo-1.0-x86_64-unknown-linux-gnu")]),
            Event::Downloaded,
            Event::Members(Vec::new()),
            Event::Unpacked,
        ],
    );
    assert_eq!(actions[3], Action::Inspect { format: None });
    assert_eq!(actions[4], Action::Unpack { payload: Payload::Whole });
    assert_eq!(actions[5], Action::Replace { target: "f".to_string(), mode: 0o755 });
    assert!(!installer.is_over());
}

#[test]
fn events_out_of_turn_change_nothing() {
    let installer = Installer::new(options(None, true), linux());
    let before = installer.clone();
    let (installer, actions) = run(
        installer,
        vec![Event::Downloaded, Event::Persisted, Event::Picked(Some(0)), Event::Unpacked],
    );
    assert_eq!(installer, before);
    assert_eq!(actions, vec![Action::Nothing, Action::Nothing, Action::Nothing, Action::Nothing]);
}

#[test]
fn every_reported_failure_gives_up() {
    let errors = vec![
        InstallError::ConfigIO("no ledger".to_string()),
        InstallError::UnrecognizedArchiveFormat,
        InstallError::Target("read-only".to_string()),
    ];
    for error in errors {
        let begun = run(
            Installer::new(options(None, true), linux()),
            vec![
                Event::Start,
                Event::Release { release: release("1.0", None), cursor: None },
                Event::Assets(vec![asset("foo-1.0-x86_64-unknown-linux-gnu.tar.gz")]),
                Event::Downloaded,
            ],
        );
        let (installer, actions) = run(begun.0, vec![Event::Failed(error.clone())]);
        assert_eq!(actions, vec![Action::Fail { error, unstage: true }]);
        assert_eq!(installer.stage, Stage::Failed);
    }
}
