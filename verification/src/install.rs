//! One installation, from the choice of a release to the entry in the ledger: what to do next,
//! given what happened.

use crate::archive::{classify, ArchiveFormat};
use crate::dl::DownloadError;
use crate::ghapi::{Asset, FeedError, Release, Timestamp, NOT_MODIFIED};
use crate::opt::{AppConfig, AppVersion, Options};
use crate::platform::{
    compatible, is_compatible_with, lexicon_parse, triple_token, PlatformTriple, TripleModel,
};
use crate::text::str_eq;
use crate::ui::{choose_index, chosen, ChoiceError};
use vstd::prelude::*;

verus! {

/// What the operator is asked when a release is to be chosen.
pub const SELECT_RELEASE: &'static str = "Select the release";

/// What the operator is asked when an asset is to be chosen.
pub const SELECT_ASSET: &'static str = "Select the asset";

/// The name of the member that is taken from an archive that holds nothing else.
pub const DATA_MEMBER: &'static str = "data";

/// The permission bits that the installed file is created with.
pub const EXECUTABLE_MODE: u32 = 0o755;

/// Why an installation was given up.
#[derive(Debug, Clone, PartialEq, Eq)]
pub enum InstallError {
    /// The configuration or the ledger could not be read or written.
    ConfigIO(String),
    /// The feed did not fulfil a request.
    Feed(FeedError),
    /// Nothing was chosen: there was nothing to choose from, or the operator chose nothing.
    Choice(ChoiceError),
    /// The asset's container was not recognised.
    UnrecognizedArchiveFormat,
    /// The archive holds more than one member, and none is configured to be taken.
    AmbiguousArchiveContents,
    /// The download failed.
    Download(DownloadError),
    /// The target could not be replaced.
    Target(String),
}

/// How the release to install is found.
#[derive(Debug, Clone, PartialEq, Eq)]
pub enum ReleaseStrategy {
    /// The release with exactly this tag.
    Tag(String),
    /// The latest release.
    Latest,
    /// One that the operator chooses from the listing.
    Choose,
}

/// The strategy that a run's intent asks for: a version that is named is fetched by its tag;
/// else the latest release is fetched where it is asked for; else the operator chooses.
pub open spec fn strategy_of(opts: Options) -> ReleaseStrategy {
    match opts.version {
        Some(tag) => ReleaseStrategy::Tag(tag),
        None => if opts.latest {
            ReleaseStrategy::Latest
        } else {
            ReleaseStrategy::Choose
        },
    }
}

/// Settles how the release to install is found.
pub fn strategy(opts: &Options) -> (r: ReleaseStrategy)
    ensures
        r == strategy_of(*opts),
{
    match &opts.version {
        Some(tag) => ReleaseStrategy::Tag(tag.clone()),
        None => if opts.latest {
            ReleaseStrategy::Latest
        } else {
            ReleaseStrategy::Choose
        },
    }
}

/// The first position from `from` on at which an asset is named `name`, if any.
pub open spec fn position_named(assets: Seq<Asset>, name: Seq<char>, from: int) -> Option<int>
    decreases assets.len() - from,
{
    if from < 0 || from >= assets.len() {
        None
    } else if assets[from].name@ == name {
        Some(from)
    } else {
        position_named(assets, name, from + 1)
    }
}

/// Whether an asset's file name says that it is built for `host`.
pub open spec fn fits(host: TripleModel, app: Seq<char>, version: Seq<char>, asset: Asset) -> bool {
    compatible(host, lexicon_parse(triple_token(app, version, asset.name@)))
}

/// The positions below `upto` of the assets that fit the host, in rising order.
pub open spec fn fitting(
    host: TripleModel,
    app: Seq<char>,
    version: Seq<char>,
    assets: Seq<Asset>,
    upto: int,
) -> Seq<usize>
    decreases upto,
{
    if upto <= 0 {
        Seq::empty()
    } else if fits(host, app, version, assets[upto - 1]) {
        fitting(host, app, version, assets, upto - 1).push((upto - 1) as usize)
    } else {
        fitting(host, app, version, assets, upto - 1)
    }
}

/// Every position below `upto`, in rising order.
pub open spec fn all_positions(upto: int) -> Seq<usize> {
    Seq::new(
        if upto < 0 {
            0
        } else {
            upto as nat
        },
        |i: int| i as usize,
    )
}

/// How the asset to install is found among those of a release.
#[derive(Debug, Clone, Copy, PartialEq, Eq, Structural)]
pub enum AssetChoice {
    /// The asset at this position is taken, without asking.
    Take(usize),
    /// The operator chooses: among the assets that fit the host where `narrowed` holds, else
    /// among all of them.
    Ask { narrowed: bool },
}

/// How the asset is found. A pinned name decides where an asset has it. Else the assets that
/// fit the host are looked at: a single one is taken, several are offered for choice, and
/// where there is none, all assets are offered.
pub open spec fn resolve(
    host: TripleModel,
    app: Seq<char>,
    version: Seq<char>,
    pinned: Option<String>,
    assets: Seq<Asset>,
) -> AssetChoice {
    let named = match pinned {
        Some(name) => position_named(assets, name@, 0),
        None => None,
    };
    let fit = fitting(host, app, version, assets, assets.len() as int);
    match named {
        Some(i) => AssetChoice::Take(i as usize),
        None => if fit.len() == 1 {
            AssetChoice::Take(fit[0])
        } else {
            AssetChoice::Ask { narrowed: fit.len() > 1 }
        },
    }
}

/// The positions that are offered to the operator.
pub open spec fn offer(
    host: TripleModel,
    app: Seq<char>,
    version: Seq<char>,
    assets: Seq<Asset>,
    narrowed: bool,
) -> Seq<usize> {
    if narrowed {
        fitting(host, app, version, assets, assets.len() as int)
    } else {
        all_positions(assets.len() as int)
    }
}

/// Filtering yields exactly the assets that fit the host: every position that `fitting` gives is
/// below `upto` and is that of an asset that fits, and the position of every such asset is among
/// them.
pub proof fn lemma_fitting_positions(
    host: TripleModel,
    app: Seq<char>,
    version: Seq<char>,
    assets: Seq<Asset>,
    upto: int,
)
    requires
        0 <= upto <= assets.len(),
        assets.len() <= usize::MAX,
    ensures
        fitting(host, app, version, assets, upto).len() <= upto,
        forall|k: int|
            0 <= k < fitting(host, app, version, assets, upto).len() ==> {
                let i = #[trigger] fitting(host, app, version, assets, upto)[k];
                0 <= i < upto && fits(host, app, version, assets[i as int])
            },
        forall|i: int|
            0 <= i < upto && fits(host, app, version, assets[i]) ==> fitting(
                host,
                app,
                version,
                assets,
                upto,
            ).contains(i as usize),
    decreases upto,
{
    if upto > 0 {
        lemma_fitting_positions(host, app, version, assets, upto - 1);
        let before = fitting(host, app, version, assets, upto - 1);
        let now = fitting(host, app, version, assets, upto);
        assert forall|i: int| 0 <= i < upto && fits(host, app, version, assets[i]) implies now.contains(
            i as usize,
        ) by {
            if i < upto - 1 {
                let k = choose|k: int| 0 <= k < before.len() && before[k] == i as usize;
                assert(now[k] == i as usize);
            } else {
                assert(now[now.len() - 1] == i as usize);
            }
        }
    }
}

/// Finds the first asset named `name`.
fn find_named(assets: &Vec<Asset>, name: &str) -> (r: Option<usize>)
    ensures
        match r {
            Some(i) => i < assets.len() && position_named(assets@, name@, 0) == Some(i as int),
            None => position_named(assets@, name@, 0) is None,
        },
{
    let mut i: usize = 0;
    while i < assets.len()
        invariant
            i <= assets.len(),
            position_named(assets@, name@, 0) == position_named(assets@, name@, i as int),
        decreases assets.len() - i,
    {
        if str_eq(assets[i].name.as_str(), name) {
            return Some(i);
        }
        i += 1;
    }
    None
}

/// The positions of the assets that fit `host`.
pub fn fitting_assets(host: &PlatformTriple, app: &str, version: &str, assets: &Vec<Asset>) -> (r:
    Vec<usize>)
    ensures
        r@ == fitting(host@, app@, version@, assets@, assets.len() as int),
        forall|k: int| 0 <= k < r.len() ==> r[k] < assets.len(),
{
    let mut found: Vec<usize> = Vec::new();
    let mut i: usize = 0;
    while i < assets.len()
        invariant
            i <= assets.len(),
            found@ == fitting(host@, app@, version@, assets@, i as int),
            forall|k: int| 0 <= k < found.len() ==> found[k] < i,
        decreases assets.len() - i,
    {
        if is_compatible_with(host, app, version, assets[i].name.as_str()) {
            found.push(i);
        }
        i += 1;
    }
    found
}

/// Settles how the asset to install is found among `assets`.
pub fn resolve_asset(
    host: &PlatformTriple,
    app: &str,
    version: &str,
    pinned: &Option<String>,
    assets: &Vec<Asset>,
) -> (r: AssetChoice)
    ensures
        r == resolve(host@, app@, version@, *pinned, assets@),
        r matches AssetChoice::Take(i) ==> i < assets.len(),
{
    let named = match pinned {
        Some(name) => find_named(assets, name.as_str()),
        None => None,
    };
    match named {
        Some(i) => AssetChoice::Take(i),
        None => {
            let fit = fitting_assets(host, app, version, assets);
            if fit.len() == 1 {
                AssetChoice::Take(fit[0])
            } else {
                AssetChoice::Ask { narrowed: fit.len() > 1 }
            }
        },
    }
}

/// The positions that are offered to the operator: those of the assets that fit the host where
/// `narrowed` holds, else all.
pub fn offered_assets(
    host: &PlatformTriple,
    app: &str,
    version: &str,
    assets: &Vec<Asset>,
    narrowed: bool,
) -> (r: Vec<usize>)
    ensures
        r@ == offer(host@, app@, version@, assets@, narrowed),
        forall|k: int| 0 <= k < r.len() ==> r[k] < assets.len(),
{
    if narrowed {
        fitting_assets(host, app, version, assets)
    } else {
        let mut all: Vec<usize> = Vec::new();
        let mut i: usize = 0;
        while i < assets.len()
            invariant
                i <= assets.len(),
                all@ == all_positions(i as int),
            decreases assets.len() - i,
        {
            all.push(i);
            assert(all@ =~= all_positions(i + 1));
            i += 1;
        }
        all
    }
}

/// Where fitting the host leaves exactly one asset and none is pinned, that asset is taken and
/// the operator is not asked.
pub proof fn lemma_single_fit_is_taken(
    host: TripleModel,
    app: Seq<char>,
    version: Seq<char>,
    assets: Seq<Asset>,
    position: usize,
)
    requires
        fitting(host, app, version, assets, assets.len() as int) == seq![position],
    ensures
        resolve(host, app, version, None, assets) == AssetChoice::Take(position),
{
}

/// What is installed from a download.
#[derive(Debug, Clone, PartialEq, Eq)]
pub enum Payload {
    /// The downloaded file itself.
    Whole,
    /// The member of this name in the downloaded archive.
    Member(String),
}

/// What is installed from a download whose members are `members`. A file without members is
/// taken whole. A single member named `data` is taken. Else the member that is configured is
/// taken; else a single member. Several members without a configured one are ambiguous.
pub open spec fn payload_of(members: Seq<String>, unpack: Option<String>) -> Result<
    Payload,
    InstallError,
> {
    if members.len() == 0 {
        Ok(Payload::Whole)
    } else if members.len() == 1 && members[0]@ == DATA_MEMBER@ {
        Ok(Payload::Member(members[0]))
    } else if unpack is Some {
        Ok(Payload::Member(unpack.unwrap()))
    } else if members.len() == 1 {
        Ok(Payload::Member(members[0]))
    } else {
        Err(InstallError::AmbiguousArchiveContents)
    }
}

/// Settles what is installed from a download whose members are `members`.
pub fn select_payload(members: Vec<String>, unpack: &Option<String>) -> (r: Result<
    Payload,
    InstallError,
>)
    ensures
        r == payload_of(members@, *unpack),
{
    let mut members = members;
    let ghost all = members@;
    if members.len() == 0 {
        return Ok(Payload::Whole);
    }
    if members.len() == 1 {
        let only = members.pop().unwrap();
        assert(only == all[0]);
        if str_eq(only.as_str(), DATA_MEMBER) {
            return Ok(Payload::Member(only));
        }
        return match unpack {
            Some(name) => Ok(Payload::Member(name.clone())),
            None => Ok(Payload::Member(only)),
        };
    }
    match unpack {
        Some(name) => Ok(Payload::Member(name.clone())),
        None => Err(InstallError::AmbiguousArchiveContents),
    }
}

/// How far an installation has come, with what it holds by then.
#[derive(Debug, Clone, PartialEq, Eq)]
pub enum Stage {
    /// Nothing has happened yet.
    Ready,
    /// The feed is asked for the release, or for the listing to choose from.
    ResolveRelease,
    /// The operator chooses among these releases.
    ChooseRelease { releases: Vec<Release> },
    /// The feed is asked for the assets of the release.
    ResolveAsset { release: Release },
    /// The operator chooses among these assets: among those that fit the host where `narrowed`
    /// holds, else among all.
    ChooseAsset { release: Release, assets: Vec<Asset>, narrowed: bool },
    /// The asset is being downloaded to the staging place.
    Download { release: Release, asset: Asset },
    /// The members of the downloaded file are being listed.
    ClassifyArchive { release: Release, asset: Asset },
    /// The payload is being taken from the downloaded file.
    ExtractOrCopy { release: Release, asset: Asset },
    /// The target is being replaced by the payload.
    ReplaceTarget { release: Release, asset: Asset },
    /// The outcome is being put on record.
    UpdateLedger,
    /// The installation is through.
    Done,
    /// The installation was given up.
    Failed,
}

/// What happened since the last step.
#[derive(Debug, Clone, PartialEq, Eq)]
pub enum Event {
    /// The installation is asked for.
    Start,
    /// The feed sent the release asked for; `cursor` is the cursor of the request after the
    /// answer.
    Release { release: Release, cursor: Option<Timestamp> },
    /// The feed sent a listing of releases; `cursor` is the cursor of the request after the
    /// answer.
    Releases { releases: Vec<Release>, cursor: Option<Timestamp> },
    /// The operator left the prompt, with the position picked among what was offered, if any.
    Picked(Option<usize>),
    /// The feed sent the assets of the release.
    Assets(Vec<Asset>),
    /// The asset lies in the staging place.
    Downloaded,
    /// The downloaded file has these members; none, where it is no archive.
    Members(Vec<String>),
    /// The payload is at hand.
    Unpacked,
    /// The target is replaced; these files were written.
    Written { files: Vec<String> },
    /// The staging place is cleared and the outcome is stored.
    Persisted,
    /// What was to be done failed.
    Failed(InstallError),
}

/// What to do next.
#[derive(Debug, Clone, PartialEq, Eq)]
pub enum Action {
    /// Ask the feed for the release with this tag, unconditionally.
    FetchTag { tag: String },
    /// Ask the feed for the latest release, conditioned on `since`.
    FetchLatest { since: Option<Timestamp> },
    /// Ask the feed for the listing of releases, conditioned on `since`.
    ListReleases { since: Option<Timestamp> },
    /// Let the operator choose among the releases of the stage.
    ChooseRelease,
    /// Show the operator `notice`, where there is one, and ask the feed for the assets of the
    /// release with this identifier, unconditionally.
    FetchAssets { release: usize, notice: Option<String> },
    /// Let the operator choose among the assets offered.
    ChooseAsset,
    /// Download `url` to the staging place, under `name`.
    Download { url: String, name: String },
    /// List the members of the downloaded file, with `format` for what its name says of its
    /// container.
    Inspect { format: Option<ArchiveFormat> },
    /// Take the payload from the downloaded file.
    Unpack { payload: Payload },
    /// Remove what stands at the target, create the target with these permission bits, and
    /// write the payload to it.
    Replace { target: String, mode: u32 },
    /// Clear the staging place, and store the configuration and the record.
    Record { config: AppConfig, version: AppVersion },
    /// Nothing is left to do: the installation is through.
    Finish,
    /// Give up for this reason; clear the staging place first where `unstage` holds.
    Fail { error: InstallError, unstage: bool },
    /// Nothing: the event does not belong to the stage.
    Nothing,
}

/// One installation: the intent, the host, the two cursors, and the stage reached.
#[derive(Debug, Clone, PartialEq, Eq)]
pub struct Installer {
    pub opts: Options,
    pub host: PlatformTriple,
    pub last_latest_at: Option<Timestamp>,
    pub last_releases_at: Option<Timestamp>,
    pub stage: Stage,
}

/// The cursors that an earlier installation left on record.
pub open spec fn cursors_of(installed: Option<AppVersion>) -> (Option<Timestamp>, Option<Timestamp>) {
    match installed {
        Some(version) => (version.last_latest_at, version.last_releases_at),
        None => (None, None),
    }
}

/// The description of a release, where it has one that is not empty.
pub open spec fn notice_of(release: Release) -> Option<String> {
    match release.desc {
        Some(text) => if text@.len() > 0 {
            Some(text)
        } else {
            None
        },
        None => None,
    }
}

/// The name of the file that is installed: the configured one, else the application's.
pub open spec fn target_of(opts: Options) -> String {
    match opts.binname {
        Some(name) => name,
        None => opts.name,
    }
}

/// Whether a failure at this stage leaves a file in the staging place.
pub open spec fn is_staged(stage: Stage) -> bool {
    stage is Download || stage is ClassifyArchive || stage is ExtractOrCopy || stage
        is ReplaceTarget || stage is UpdateLedger
}

/// The error that an installation is given up with, for a failure that is reported to it. A
/// listing that the feed reports as not modified counts as an empty listing, from which
/// nothing can be chosen.
pub open spec fn settled(pre: Installer, error: InstallError) -> InstallError {
    match error {
        InstallError::Feed(feed) => if pre.stage is ResolveRelease && strategy_of(pre.opts)
            is Choose && feed.status == NOT_MODIFIED {
            InstallError::Choice(ChoiceError::NoChoices)
        } else {
            error
        },
        _ => error,
    }
}

/// The installation given up with `error`.
pub open spec fn failed(pre: Installer, error: InstallError) -> (Installer, Action) {
    (
        Installer { stage: Stage::Failed, ..pre },
        Action::Fail { error, unstage: is_staged(pre.stage) },
    )
}

/// The installation once the release is settled.
pub open spec fn with_release(pre: Installer, release: Release) -> (Installer, Action) {
    (
        Installer { stage: Stage::ResolveAsset { release }, ..pre },
        Action::FetchAssets { release: release.id, notice: notice_of(release) },
    )
}

/// The installation once the asset is settled: its name is pinned.
pub open spec fn with_asset(pre: Installer, release: Release, asset: Asset) -> (Installer, Action) {
    (
        Installer {
            opts: Options { asset_name: Some(asset.name), ..pre.opts },
            stage: Stage::Download { release, asset },
            ..pre
        },
        Action::Download { url: asset.browser_download_url, name: asset.name },
    )
}

/// The record of an installation of `asset` from `release` that wrote `files`.
pub open spec fn record_of(pre: Installer, release: Release, asset: Asset, files: Vec<String>) -> AppVersion {
    AppVersion {
        name: pre.opts.name,
        version: release.name,
        files,
        updated_at: asset.updated_at,
        last_latest_at: pre.last_latest_at,
        last_releases_at: pre.last_releases_at,
    }
}

/// The configuration that an installation of `asset` leaves behind.
pub open spec fn kept_config(opts: Options, asset: Asset) -> AppConfig {
    AppConfig {
        name: opts.name,
        repo: opts.repo,
        asset_name: asset.name,
        allow_prerelease: opts.allow_prerelease,
        after_downloaded: opts.after_downloaded,
        kind: opts.kind,
        unpack: opts.unpack,
        binname: opts.binname,
    }
}

/// The stage that follows on an event, and what is to be done then.
///
/// An installation that is through or given up stays so. A failure gives the installation up
/// wherever it stands, and the staging place is cleared first where the download had begun.
/// From there on each stage waits for its own event: the release (fetched by tag, fetched as
/// the latest, or chosen from the listing), the assets (one pinned, one that alone fits the
/// host, or one chosen), the download, the listing of members, the payload, the target, the
/// record. Any other event changes nothing.
pub open spec fn next(pre: Installer, event: Event) -> (Installer, Action) {
    let host = pre.host@;
    let app = pre.opts.name@;
    match (pre.stage, event) {
        (Stage::Done, _) => (pre, Action::Nothing),
        (Stage::Failed, _) => (pre, Action::Nothing),
        (_, Event::Failed(error)) => failed(pre, settled(pre, error)),
        (Stage::Ready, Event::Start) => (
            Installer { stage: Stage::ResolveRelease, ..pre },
            match strategy_of(pre.opts) {
                ReleaseStrategy::Tag(tag) => Action::FetchTag { tag },
                ReleaseStrategy::Latest => Action::FetchLatest { since: pre.last_latest_at },
                ReleaseStrategy::Choose => Action::ListReleases { since: pre.last_releases_at },
            },
        ),
        (Stage::ResolveRelease, Event::Release { release, cursor }) => match strategy_of(pre.opts) {
            ReleaseStrategy::Tag(_) => with_release(pre, release),
            ReleaseStrategy::Latest => with_release(
                Installer { last_latest_at: cursor, ..pre },
                release,
            ),
            ReleaseStrategy::Choose => (pre, Action::Nothing),
        },
        (Stage::ResolveRelease, Event::Releases { releases, cursor }) => match strategy_of(
            pre.opts,
        ) {
            ReleaseStrategy::Choose => {
                let seen = Installer { last_releases_at: cursor, ..pre };
                if releases@.len() == 0 {
                    failed(seen, InstallError::Choice(ChoiceError::NoChoices))
                } else {
                    (
                        Installer { stage: Stage::ChooseRelease { releases }, ..seen },
                        Action::ChooseRelease,
                    )
                }
            },
            _ => (pre, Action::Nothing),
        },
        (Stage::ChooseRelease { releases }, Event::Picked(picked)) => match chosen(
            releases@.len(),
            picked,
        ) {
            Ok(i) => with_release(pre, releases@[i]),
            Err(error) => failed(pre, InstallError::Choice(error)),
        },
        (Stage::ResolveAsset { release }, Event::Assets(assets)) => match resolve(
            host,
            app,
            release.name@,
            pre.opts.asset_name,
            assets@,
        ) {
            AssetChoice::Take(i) => with_asset(pre, release, assets@[i as int]),
            AssetChoice::Ask { narrowed } => if assets@.len() == 0 {
                failed(pre, InstallError::Choice(ChoiceError::NoChoices))
            } else {
                (
                    Installer { stage: Stage::ChooseAsset { release, assets, narrowed }, ..pre },
                    Action::ChooseAsset,
                )
            },
        },
        (Stage::ChooseAsset { release, assets, narrowed }, Event::Picked(picked)) => {
            let offered = offer(host, app, release.name@, assets@, narrowed);
            match chosen(offered.len(), picked) {
                Ok(k) => with_asset(pre, release, assets@[offered[k] as int]),
                Err(error) => failed(pre, InstallError::Choice(error)),
            }
        },
        (Stage::Download { release, asset }, Event::Downloaded) => (
            Installer { stage: Stage::ClassifyArchive { release, asset }, ..pre },
            Action::Inspect { format: classify(asset.name@) },
        ),
        (Stage::ClassifyArchive { release, asset }, Event::Members(members)) => match payload_of(
            members@,
            pre.opts.unpack,
        ) {
            Ok(payload) => (
                Installer { stage: Stage::ExtractOrCopy { release, asset }, ..pre },
                Action::Unpack { payload },
            ),
            Err(error) => failed(pre, error),
        },
        (Stage::ExtractOrCopy { release, asset }, Event::Unpacked) => (
            Installer { stage: Stage::ReplaceTarget { release, asset }, ..pre },
            Action::Replace { target: target_of(pre.opts), mode: EXECUTABLE_MODE },
        ),
        (Stage::ReplaceTarget { release, asset }, Event::Written { files }) => (
            Installer { stage: Stage::UpdateLedger, ..pre },
            Action::Record {
                config: kept_config(pre.opts, asset),
                version: record_of(pre, release, asset, files),
            },
        ),
        (Stage::UpdateLedger, Event::Persisted) => (
            Installer { stage: Stage::Done, ..pre },
            Action::Finish,
        ),
        _ => (pre, Action::Nothing),
    }
}

fn copy_text(text: &Option<String>) -> (r: Option<String>)
    ensures
        r == *text,
{
    match text {
        Some(t) => Some(t.clone()),
        None => None,
    }
}

impl Installer {
    /// An installation that has not begun, with the cursors that an earlier one left on record.
    pub fn new(opts: Options, host: PlatformTriple) -> (r: Installer)
        ensures
            r.opts == opts,
            r.host == host,
            (r.last_latest_at, r.last_releases_at) == cursors_of(opts.app_version),
            r.stage == Stage::Ready,
    {
        let (last_latest_at, last_releases_at) = match &opts.app_version {
            Some(version) => (version.last_latest_at, version.last_releases_at),
            None => (None, None),
        };
        Installer { opts, host, last_latest_at, last_releases_at, stage: Stage::Ready }
    }

    /// Whether the installation is through or given up.
    pub fn is_over(&self) -> (r: bool)
        ensures
            r == (self.stage is Done || self.stage is Failed),
    {
        match &self.stage {
            Stage::Done => true,
            Stage::Failed => true,
            _ => false,
        }
    }

    /// The positions of the assets that the operator is offered, while an asset is being
    /// chosen; none at any other stage.
    pub fn offered(&self) -> (r: Vec<usize>)
        ensures
            match self.stage {
                Stage::ChooseAsset { release, assets, narrowed } => r@ == offer(
                    self.host@,
                    self.opts.name@,
                    release.name@,
                    assets@,
                    narrowed,
                ),
                _ => r@.len() == 0,
            },
    {
        match &self.stage {
            Stage::ChooseAsset { release, assets, narrowed } => offered_assets(
                &self.host,
                self.opts.name.as_str(),
                release.name.as_str(),
                assets,
                *narrowed,
            ),
            _ => Vec::new(),
        }
    }

    fn give_up(self, error: InstallError) -> (r: (Installer, Action))
        ensures
            r == failed(self, error),
    {
        let unstage = match &self.stage {
            Stage::Download { .. } => true,
            Stage::ClassifyArchive { .. } => true,
            Stage::ExtractOrCopy { .. } => true,
            Stage::ReplaceTarget { .. } => true,
            Stage::UpdateLedger => true,
            _ => false,
        };
        (
            Installer {
                opts: self.opts,
                host: self.host,
                last_latest_at: self.last_latest_at,
                last_releases_at: self.last_releases_at,
                stage: Stage::Failed,
            },
            Action::Fail { error, unstage },
        )
    }

    fn settle(&self, error: InstallError) -> (r: InstallError)
        ensures
            r == settled(*self, error),
    {
        let listing = match (&self.stage, strategy(&self.opts)) {
            (Stage::ResolveRelease, ReleaseStrategy::Choose) => true,
            _ => false,
        };
        match error {
            InstallError::Feed(feed) => {
                if listing && feed.status == NOT_MODIFIED {
                    InstallError::Choice(ChoiceError::NoChoices)
                } else {
                    InstallError::Feed(feed)
                }
            },
            other => other,
        }
    }

    fn take_release(self, release: Release) -> (r: (Installer, Action))
        ensures
            r == with_release(self, release),
    {
        let notice = match &release.desc {
            Some(text) => if text.as_str().is_empty() {
                None
            } else {
                Some(text.clone())
            },
            None => None,
        };
        let id = release.id;
        (
            Installer {
                opts: self.opts,
                host: self.host,
                last_latest_at: self.last_latest_at,
                last_releases_at: self.last_releases_at,
                stage: Stage::ResolveAsset { release },
            },
            Action::FetchAssets { release: id, notice },
        )
    }

    fn take_asset(self, release: Release, asset: Asset) -> (r: (Installer, Action))
        ensures
            r == with_asset(self, release, asset),
    {
        let url = asset.browser_download_url.clone();
        let name = asset.name.clone();
        let mut opts = self.opts;
        opts.asset_name = Some(asset.name.clone());
        (
            Installer {
                opts,
                host: self.host,
                last_latest_at: self.last_latest_at,
                last_releases_at: self.last_releases_at,
                stage: Stage::Download { release, asset },
            },
            Action::Download { url, name },
        )
    }

    fn stay(self) -> (r: (Installer, Action))
        ensures
            r == (self, Action::Nothing),
    {
        (self, Action::Nothing)
    }

    /// Takes one step of the installation: the stage that follows on `event`, and what is to be
    /// done then.
    pub fn step(self, event: Event) -> (r: (Installer, Action))
        ensures
            r == next(self, event),
    {
        if self.is_over() {
            return self.stay();
        }
        let event = match event {
            Event::Failed(error) => {
                let error = self.settle(error);
                return self.give_up(error);
            },
            other => other,
        };
        let Installer { opts, host, last_latest_at, last_releases_at, stage } = self;
        match (stage, event) {
            (Stage::Ready, Event::Start) => {
                let action = match strategy(&opts) {
                    ReleaseStrategy::Tag(tag) => Action::FetchTag { tag },
                    ReleaseStrategy::Latest => Action::FetchLatest { since: last_latest_at },
                    ReleaseStrategy::Choose => Action::ListReleases { since: last_releases_at },
                };
                (
                    Installer {
                        opts,
                        host,
                        last_latest_at,
                        last_releases_at,
                        stage: Stage::ResolveRelease,
                    },
                    action,
                )
            },
            (Stage::ResolveRelease, Event::Release { release, cursor }) => {
                match strategy(&opts) {
                    ReleaseStrategy::Tag(_) => (Installer {
                        opts,
                        host,
                        last_latest_at,
                        last_releases_at,
                        stage: Stage::ResolveRelease,
                    }).take_release(release),
                    ReleaseStrategy::Latest => (Installer {
                        opts,
                        host,
                        last_latest_at: cursor,
                        last_releases_at,
                        stage: Stage::ResolveRelease,
                    }).take_release(release),
                    ReleaseStrategy::Choose => (Installer {
                        opts,
                        host,
                        last_latest_at,
                        last_releases_at,
                        stage: Stage::ResolveRelease,
                    }).stay(),
                }
            },
            (Stage::ResolveRelease, Event::Releases { releases, cursor }) => {
                match strategy(&opts) {
                    ReleaseStrategy::Choose => {
                        if releases.len() == 0 {
                            (Installer {
                                opts,
                                host,
                                last_latest_at,
                                last_releases_at: cursor,
                                stage: Stage::ResolveRelease,
                            }).give_up(InstallError::Choice(ChoiceError::NoChoices))
                        } else {
                            (
                                Installer {
                                    opts,
                                    host,
                                    last_latest_at,
                                    last_releases_at: cursor,
                                    stage: Stage::ChooseRelease { releases },
                                },
                                Action::ChooseRelease,
                            )
                        }
                    },
                    _ => (Installer {
                        opts,
                        host,
                        last_latest_at,
                        last_releases_at,
                        stage: Stage::ResolveRelease,
                    }).stay(),
                }
            },
            (Stage::ChooseRelease { releases }, Event::Picked(picked)) => {
                match choose_index(releases.len(), picked) {
                    Ok(i) => {
                        let mut releases = releases;
                        let release = releases.remove(i);
                        (Installer {
                            opts,
                            host,
                            last_latest_at,
                            last_releases_at,
                            stage: Stage::Ready,
                        }).take_release(release)
                    },
                    Err(error) => (Installer {
                        opts,
                        host,
                        last_latest_at,
                        last_releases_at,
                        stage: Stage::ChooseRelease { releases },
                    }).give_up(InstallError::Choice(error)),
                }
            },
            (Stage::ResolveAsset { release }, Event::Assets(assets)) => {
                let choice = resolve_asset(
                    &host,
                    opts.name.as_str(),
                    release.name.as_str(),
                    &opts.asset_name,
                    &assets,
                );
                match choice {
                    AssetChoice::Take(i) => {
                        let mut assets = assets;
                        let asset = assets.remove(i);
                        (Installer {
                            opts,
                            host,
                            last_latest_at,
                            last_releases_at,
                            stage: Stage::Ready,
                        }).take_asset(release, asset)
                    },
                    AssetChoice::Ask { narrowed } => {
                        if assets.len() == 0 {
                            (Installer {
                                opts,
                                host,
                                last_latest_at,
                                last_releases_at,
                                stage: Stage::ResolveAsset { release },
                            }).give_up(InstallError::Choice(ChoiceError::NoChoices))
                        } else {
                            (
                                Installer {
                                    opts,
                                    host,
                                    last_latest_at,
                                    last_releases_at,
                                    stage: Stage::ChooseAsset { release, assets, narrowed },
                                },
                                Action::ChooseAsset,
                            )
                        }
                    },
                }
            },
            (Stage::ChooseAsset { release, assets, narrowed }, Event::Picked(picked)) => {
                let offered = offered_assets(
                    &host,
                    opts.name.as_str(),
                    release.name.as_str(),
                    &assets,
                    narrowed,
                );
                match choose_index(offered.len(), picked) {
                    Ok(k) => {
                        let mut assets = assets;
                        let asset = assets.remove(offered[k]);
                        (Installer {
                            opts,
                            host,
                            last_latest_at,
                            last_releases_at,
                            stage: Stage::Ready,
                        }).take_asset(release, asset)
                    },
                    Err(error) => (Installer {
                        opts,
                        host,
                        last_latest_at,
                        last_releases_at,
                        stage: Stage::ChooseAsset { release, assets, narrowed },
                    }).give_up(InstallError::Choice(error)),
                }
            },
            (Stage::Download { release, asset }, Event::Downloaded) => {
                let format = match ArchiveFormat::from_filename(asset.name.as_str()) {
                    Ok(format) => Some(format),
                    Err(_) => None,
                };
                (
                    Installer {
                        opts,
                        host,
                        last_latest_at,
                        last_releases_at,
                        stage: Stage::ClassifyArchive { release, asset },
                    },
                    Action::Inspect { format },
                )
            },
            (Stage::ClassifyArchive { release, asset }, Event::Members(members)) => {
                match select_payload(members, &opts.unpack) {
                    Ok(payload) => (
                        Installer {
                            opts,
                            host,
                            last_latest_at,
                            last_releases_at,
                            stage: Stage::ExtractOrCopy { release, asset },
                        },
                        Action::Unpack { payload },
                    ),
                    Err(error) => (Installer {
                        opts,
                        host,
                        last_latest_at,
                        last_releases_at,
                        stage: Stage::ClassifyArchive { release, asset },
                    }).give_up(error),
                }
            },
            (Stage::ExtractOrCopy { release, asset }, Event::Unpacked) => {
                let target = match &opts.binname {
                    Some(name) => name.clone(),
                    None => opts.name.clone(),
                };
                (
                    Installer {
                        opts,
                        host,
                        last_latest_at,
                        last_releases_at,
                        stage: Stage::ReplaceTarget { release, asset },
                    },
                    Action::Replace { target, mode: EXECUTABLE_MODE },
                )
            },
            (Stage::ReplaceTarget { release, asset }, Event::Written { files }) => {
                let config = AppConfig {
                    name: opts.name.clone(),
                    repo: opts.repo.clone(),
                    asset_name: asset.name.clone(),
                    allow_prerelease: opts.allow_prerelease,
                    after_downloaded: copy_text(&opts.after_downloaded),
                    kind: opts.kind,
                    unpack: copy_text(&opts.unpack),
                    binname: copy_text(&opts.binname),
                };
                let version = AppVersion {
                    name: opts.name.clone(),
                    version: release.name,
                    files,
                    updated_at: asset.updated_at,
                    last_latest_at,
                    last_releases_at,
                };
                (
                    Installer {
                        opts,
                        host,
                        last_latest_at,
                        last_releases_at,
                        stage: Stage::UpdateLedger,
                    },
                    Action::Record { config, version },
                )
            },
            (Stage::UpdateLedger, Event::Persisted) => (
                Installer { opts, host, last_latest_at, last_releases_at, stage: Stage::Done },
                Action::Finish,
            ),
            (stage, _) => (
                Installer { opts, host, last_latest_at, last_releases_at, stage },
                Action::Nothing,
            ),
        }
    }
}

/// An installation that is through or given up stays as it is, whatever happens.
pub proof fn lemma_over_stays_over(pre: Installer, event: Event)
    requires
        pre.stage is Done || pre.stage is Failed,
    ensures
        next(pre, event) == (pre, Action::Nothing),
{
}

/// A failure gives up an installation that is still under way, and the staging place is cleared
/// exactly where the download had begun.
pub proof fn lemma_failure_gives_up(pre: Installer, error: InstallError)
    requires
        !(pre.stage is Done || pre.stage is Failed),
    ensures
        next(pre, Event::Failed(error)).0.stage is Failed,
        next(pre, Event::Failed(error)).1 matches Action::Fail { unstage, .. } && unstage
            == is_staged(pre.stage),
{
}

/// The configuration and the ledger are touched only at the end of a flow that went through:
/// the outcome is put on record only once the target is replaced, and only then does the
/// installation come to be through.
pub proof fn lemma_record_only_after_replace(pre: Installer, event: Event)
    ensures
        next(pre, event).1 is Record ==> pre.stage is ReplaceTarget && event is Written,
        next(pre, event).0.stage is Done ==> pre.stage is Done || (pre.stage is UpdateLedger
            && event is Persisted),
        next(pre, event).0.stage is UpdateLedger ==> pre.stage is ReplaceTarget || (pre.stage
            is UpdateLedger && next(pre, event).1 is Nothing),
{
}

/// No step changes what the installation is about: the host stays, and of the intent only the
/// pinned asset name is set, when the asset is settled.
pub proof fn lemma_step_keeps_intent(pre: Installer, event: Event)
    ensures
        next(pre, event).0.host == pre.host,
        next(pre, event).0.opts == (Options {
            asset_name: next(pre, event).0.opts.asset_name,
            ..pre.opts
        }),
{
}

} // verus!
