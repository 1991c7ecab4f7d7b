//! The release feed: what is asked of it, and what its answers mean.

use crate::text::{decimal, decimal_string};
use vstd::prelude::*;
use vstd::string::StringExecFns;

verus! {

/// The media type asked of the feed.
pub const GITHUB_ACCEPT: &'static str = "application/vnd.github.v3+json";

/// The feed that is asked where none is named.
pub const GITHUB_API: &'static str = "https://api.github.com/";

/// Seconds after which a request to the feed is given up.
pub const REQUEST_TIMEOUT_SECS: u64 = 10;

/// An instant: seconds since 1970-01-01T00:00:00Z, and the nanoseconds into that second.
#[derive(Debug, Clone, Copy, PartialEq, Eq, Structural)]
pub struct Timestamp {
    pub secs: i64,
    pub nanos: u32,
}

/// Which page of a listing is asked for, and how long a page is.
#[derive(Debug, Clone, Copy, PartialEq, Eq, Structural)]
pub struct Pagination {
    page: usize,
    per_page: usize,
}

impl Default for Pagination {
    fn default() -> (r: Pagination)
        ensures
            r == Pagination::default_page(),
            r.page() == 1,
            r.per_page_of() == 20,
    {
        Pagination { page: 1, per_page: 20 }
    }
}

impl Pagination {
    /// The page, counted from 1.
    pub closed spec fn page_of(&self) -> usize {
        self.page
    }

    /// The number of entries on a page.
    pub closed spec fn per_page_of(&self) -> usize {
        self.per_page
    }

    pub fn new(page: usize, per_page: usize) -> (r: Pagination)
        ensures
            r == Pagination::of(page, per_page),
            r.page() == page,
            r.per_page_of() == per_page,
    {
        Pagination { page, per_page }
    }

    #[verifier::when_used_as_spec(page_of)]
    pub fn page(&self) -> (r: usize)
        ensures
            r == self.page_of(),
    {
        self.page
    }

    pub fn set_page(&mut self, page: usize)
        ensures
            final(self).page() == page,
            final(self).per_page_of() == old(self).per_page_of(),
    {
        self.page = page;
    }

    pub fn per_page(&mut self) -> (r: usize)
        ensures
            r == old(self).per_page_of(),
            *final(self) == *old(self),
    {
        self.per_page
    }

    /// The first page, of the usual length.
    pub open spec fn default_page() -> Pagination {
        Pagination::of(1, 20)
    }

    /// The page with these numbers.
    pub closed spec fn of(page: usize, per_page: usize) -> Pagination {
        Pagination { page, per_page }
    }

    /// Page `page`, of the usual length.
    pub fn of_page(page: usize) -> (r: Pagination)
        ensures
            r.page() == page,
            r.per_page_of() == 20,
    {
        Pagination { page, per_page: 20 }
    }

    /// The first page, with `per_page` entries.
    pub fn of_per_page(per_page: usize) -> (r: Pagination)
        ensures
            r.page() == 1,
            r.per_page_of() == per_page,
    {
        Pagination { page: 1, per_page }
    }

    /// The query that asks for this page: `page=` and `per_page=` with their numbers.
    pub open spec fn query_of(&self) -> Seq<char> {
        "page="@ + decimal(self.page() as nat) + "&per_page="@ + decimal(self.per_page_of() as nat)
    }

    /// The query string that asks the feed for this page.
    pub fn query(&self) -> (r: String)
        ensures
            r@ == self.query_of(),
    {
        let mut r = String::from_str("page=");
        r.append(decimal_string(self.page as u64).as_str());
        r.append("&per_page=");
        r.append(decimal_string(self.per_page as u64).as_str());
        r
    }
}

pub fn pagination(page: usize, per_page: usize) -> (r: Pagination)
    ensures
        r.page() == page,
        r.per_page_of() == per_page,
{
    Pagination::new(page, per_page)
}

/// The text of an optional string.
pub open spec fn text_of(text: Option<String>) -> Option<Seq<char>> {
    match text {
        Some(t) => Some(t@),
        None => None,
    }
}

/// The address of a release feed.
#[derive(Debug, Clone, PartialEq, Eq)]
pub struct Github {
    pub api: String,
}

impl Default for Github {
    fn default() -> (r: Github)
        ensures
            r.api@ == GITHUB_API@,
    {
        Github::new(GITHUB_API)
    }
}

impl Github {
    /// The feed at `api`.
    pub fn new(api: &str) -> (r: Github)
        ensures
            r.api@ == api@,
    {
        Github { api: String::from_str(api) }
    }

    /// The repository `owner`/`name` on this feed.
    pub fn repo(&self, owner: String, name: String) -> (r: GhRepo)
        ensures
            r@ == (RepoModel { api: self.api@, owner: owner@, name: name@ }),
    {
        GhRepo { gh: Github { api: self.api.clone() }, name, owner }
    }
}

/// A repository on a feed.
#[derive(Debug, Clone, PartialEq, Eq)]
pub struct GhRepo {
    pub gh: Github,
    pub name: String,
    pub owner: String,
}

/// What names a repository: the feed, the owner and the repository's name.
pub struct RepoModel {
    pub api: Seq<char>,
    pub owner: Seq<char>,
    pub name: Seq<char>,
}

impl View for GhRepo {
    type V = RepoModel;

    open spec fn view(&self) -> RepoModel {
        RepoModel { api: self.gh.api@, owner: self.owner@, name: self.name@ }
    }
}

/// Where the feed keeps a repository.
pub open spec fn repo_path(repo: RepoModel) -> Seq<char> {
    "/repos/"@ + repo.owner + "/"@ + repo.name
}

/// Where the feed lists a repository's releases.
pub open spec fn releases_path(repo: RepoModel) -> Seq<char> {
    repo_path(repo) + "/"@ + "releases"@
}

/// Where the feed keeps a repository's latest release.
pub open spec fn latest_path(repo: RepoModel) -> Seq<char> {
    releases_path(repo) + "/latest"@
}

/// Where the feed keeps the release with a given tag.
pub open spec fn tag_path(repo: RepoModel, tag: Seq<char>) -> Seq<char> {
    releases_path(repo) + "/tags/"@ + tag
}

/// Where the feed lists the assets of the release with a given identifier.
pub open spec fn assets_path(repo: RepoModel, release: nat) -> Seq<char> {
    releases_path(repo) + "/"@ + decimal(release) + "/assets"@
}

impl GhRepo {
    /// The same repository, held anew.
    pub fn duplicate(&self) -> (r: GhRepo)
        ensures
            r@ == self@,
    {
        GhRepo {
            gh: Github { api: self.gh.api.clone() },
            name: self.name.clone(),
            owner: self.owner.clone(),
        }
    }

    /// The releases of this repository.
    pub fn releases(&self) -> (r: GhRelease)
        ensures
            r@ == self@,
    {
        GhRelease { repo: self.duplicate() }
    }

    /// The path of this repository on the feed.
    pub fn path(&self) -> (r: String)
        ensures
            r@ == repo_path(self@),
    {
        let mut r = String::from_str("/repos/");
        r.append(self.owner.as_str());
        r.append("/");
        r.append(self.name.as_str());
        r
    }
}

/// The releases of one repository.
#[derive(Debug, Clone, PartialEq, Eq)]
pub struct GhRelease {
    pub repo: GhRepo,
}

impl View for GhRelease {
    type V = RepoModel;

    open spec fn view(&self) -> RepoModel {
        self.repo@
    }
}

/// One request to the feed: the path, the page asked for, and the instant that conditions the
/// request, where the caller has seen the feed before.
#[derive(Debug, Clone, PartialEq, Eq)]
pub struct Request {
    pub path: String,
    pub page: Option<Pagination>,
    pub since: Option<Timestamp>,
}

impl GhRelease {
    /// The path segment under which a repository's releases stand.
    pub fn path(&self) -> (r: String)
        ensures
            r@ == "releases"@,
    {
        String::from_str("releases")
    }

    fn base(&self) -> (r: String)
        ensures
            r@ == releases_path(self@),
    {
        let mut r = self.repo.path();
        r.append("/");
        r.append(self.path().as_str());
        r
    }

    /// Asks for one page of the repository's releases, conditioned on `since` where it is set.
    pub fn releases(&self, page: Option<Pagination>, since: &Option<Timestamp>) -> (r: Request)
        ensures
            r.path@ == releases_path(self@),
            r.page == page,
            r.since == *since,
    {
        Request { path: self.base(), page, since: *since }
    }

    /// Asks for the repository's latest release, conditioned on `since` where it is set.
    pub fn latest(&self, since: &Option<Timestamp>) -> (r: Request)
        ensures
            r.path@ == latest_path(self@),
            r.page is None,
            r.since == *since,
    {
        let mut path = self.base();
        path.append("/latest");
        Request { path, page: None, since: *since }
    }

    /// Asks for the release whose tag is exactly `tagname`, conditioned on `since` where it is
    /// set.
    pub fn oftag(&self, tagname: &str, since: &Option<Timestamp>) -> (r: Request)
        ensures
            r.path@ == tag_path(self@, tagname@),
            r.page is None,
            r.since == *since,
    {
        let mut path = self.base();
        path.append("/tags/");
        path.append(tagname);
        Request { path, page: None, since: *since }
    }

    /// Asks for one page of the assets of the release with identifier `release`, conditioned on
    /// `since` where it is set.
    pub fn assets(&self, release: usize, page: Option<Pagination>, since: &Option<Timestamp>) -> (r:
        Request)
        ensures
            r.path@ == assets_path(self@, release as nat),
            r.page == page,
            r.since == *since,
    {
        let mut path = self.base();
        path.append("/");
        path.append(decimal_string(release as u64).as_str());
        path.append("/assets");
        Request { path, page, since: *since }
    }
}

/// What the feed answered: the status, the instant of last modification where the answer
/// carries one, and the body.
#[derive(Debug, Clone, PartialEq, Eq)]
pub struct Response {
    pub status: u16,
    pub last_modified: Option<Timestamp>,
    pub body: String,
}

/// A request that the feed did not fulfil: the status and the body of its answer.
#[derive(Debug, Clone, PartialEq, Eq)]
pub struct FeedError {
    pub status: u16,
    pub body: String,
}

/// The status with which the feed says that nothing changed since the instant given.
pub const NOT_MODIFIED: u16 = 304;

/// A status of the redirection, client-error or server-error class.
pub open spec fn is_failure(status: u16) -> bool {
    300 <= status < 600
}

/// Sorts an answer by its status: one of the redirection, client-error or server-error class is
/// a failure that carries the status and the body; any other answer is handed back as it is.
pub fn is_ok(resp: Response) -> (r: Result<Response, FeedError>)
    ensures
        match r {
            Ok(same) => !is_failure(resp.status) && same == resp,
            Err(error) => is_failure(resp.status) && error.status == resp.status && error.body
                == resp.body,
        },
{
    if 300 <= resp.status && resp.status < 600 {
        Err(FeedError { status: resp.status, body: resp.body })
    } else {
        Ok(resp)
    }
}

/// The cursor that a caller holds after an answer: the answer's instant of last modification
/// where the answer is no failure and carries one, else the cursor held before.
pub open spec fn cursor_after(cursor: Option<Timestamp>, resp: Response) -> Option<Timestamp> {
    if !is_failure(resp.status) && resp.last_modified is Some {
        resp.last_modified
    } else {
        cursor
    }
}

/// Takes the feed's answer to a conditional request: a failure is reported and leaves the cursor
/// alone; any other answer yields its body, and its instant of last modification, where it
/// carries one, becomes the cursor.
pub fn receive(resp: Response, since: &mut Option<Timestamp>) -> (r: Result<String, FeedError>)
    ensures
        *final(since) == cursor_after(*old(since), resp),
        match r {
            Ok(body) => !is_failure(resp.status) && body == resp.body,
            Err(error) => is_failure(resp.status) && error.status == resp.status && error.body
                == resp.body,
        },
{
    match is_ok(resp) {
        Ok(resp) => {
            if let Some(last) = resp.last_modified {
                *since = Some(last);
            }
            Ok(resp.body)
        },
        Err(error) => Err(error),
    }
}

/// Asking again with the cursor of an earlier answer, against a feed that has not changed,
/// leaves the cursor as it was: whether the feed answers that nothing was modified, or sends
/// the same answer once more.
pub proof fn lemma_unchanged_feed_keeps_cursor(
    start: Option<Timestamp>,
    first: Response,
    second: Response,
)
    requires
        second.status == NOT_MODIFIED || (second.status == first.status && second.last_modified
            == first.last_modified),
    ensures
        cursor_after(cursor_after(start, first), second) == cursor_after(start, first),
{
}

/// A published release of a repository, as the feed describes it.
#[derive(Debug, Clone, PartialEq, Eq)]
pub struct Release {
    pub id: usize,
    pub url: String,
    pub name: String,
    pub desc: Option<String>,
    pub tagname: Option<String>,
    pub prerelease: bool,
    pub published_at: Timestamp,
    /// The releases that this one was fetched from, once it is known.
    pub gh: Option<GhRelease>,
}

/// A file attached to a release, as the feed describes it.
#[derive(Debug, Clone, PartialEq, Eq)]
pub struct Asset {
    pub name: String,
    pub url: String,
    pub size: usize,
    pub label: Option<String>,
    pub updated_at: Timestamp,
    pub browser_download_url: String,
}

/// The line that offers a release for choice: its name, its description where it has one, and
/// in brackets the time of its publication, with tabs between them.
pub open spec fn release_line(name: Seq<char>, desc: Option<Seq<char>>, date: Seq<char>) -> Seq<
    char,
> {
    name + "\t"@ + (match desc {
        Some(text) => text,
        None => Seq::empty(),
    }) + "\t("@ + date + ")"@
}

/// A label in brackets, or nothing where the label is missing or empty.
pub open spec fn bracketed(label: Option<Seq<char>>) -> Seq<char> {
    match label {
        Some(text) => if text.len() > 0 {
            "("@ + text + ")"@
        } else {
            Seq::empty()
        },
        None => Seq::empty(),
    }
}

/// The line that offers an asset for choice: its size, its name, and its label in brackets
/// where it has one, with tabs between them.
pub open spec fn asset_line(size: Seq<char>, name: Seq<char>, label: Option<Seq<char>>) -> Seq<
    char,
> {
    size + "\t"@ + name + "\t\t"@ + bracketed(label)
}

/// Calls `chrono::DateTime::from_timestamp`, `DateTime::with_timezone` with `chrono::Local`, and
/// `DateTime::format` with `%F %T`: the date and time of an instant on this machine's clock
/// face, or nothing where the instant lies outside chrono's calendar. The outcome depends on
/// the machine's time zone, so nothing is claimed of it.
#[verifier::external_body]
fn local_date_time(at: Timestamp) -> (r: Option<String>) {
    let utc = chrono::DateTime::from_timestamp(at.secs, at.nanos)?;
    Some(utc.with_timezone(&chrono::Local).format("%F %T").to_string())
}

/// Calls `bytesize::ByteSize::b` and `ByteSize::to_string_as` with binary units: a size in
/// bytes for a reader. The crate computes it in floating point, so nothing is claimed of it.
#[verifier::external_body]
fn size_text(bytes: u64) -> (r: String) {
    bytesize::ByteSize::b(bytes).to_string_as(true)
}

impl Release {
    /// The description, where the release has one that is not empty.
    pub fn notice(&self) -> (r: Option<&str>)
        ensures
            match r {
                Some(text) => self.desc is Some && text@ == self.desc.unwrap()@ && text@.len() > 0,
                None => self.desc is None || self.desc.unwrap()@.len() == 0,
            },
    {
        match &self.desc {
            Some(text) => {
                if text.as_str().is_empty() {
                    None
                } else {
                    Some(text.as_str())
                }
            },
            None => None,
        }
    }

    /// The address of this release on the feed.
    pub fn url(&self) -> (r: &String)
        ensures
            r == self.url,
    {
        &self.url
    }

    /// Asks for the first page of this release's assets, conditioned on `since` where it is set.
    pub fn assets(&self, since: &Option<Timestamp>) -> (r: Request)
        requires
            self.gh is Some,
        ensures
            r.path@ == assets_path(self.gh.unwrap()@, self.id as nat),
            r.page == Some(Pagination::default_page()),
            r.since == *since,
    {
        match &self.gh {
            Some(gh) => gh.assets(self.id, Some(Pagination::default()), since),
            None => Request { path: String::new(), page: None, since: None },
        }
    }

    /// The line that offers this release for choice, with `date` for its time of publication.
    pub fn line_with(&self, date: &str) -> (r: String)
        ensures
            r@ == release_line(self.name@, text_of(self.desc), date@),
    {
        let mut r = self.name.clone();
        r.append("\t");
        match &self.desc {
            Some(text) => {
                r.append(text.as_str());
            },
            None => {
                assert(r@ + Seq::<char>::empty() =~= r@);
            },
        }
        r.append("\t(");
        r.append(date);
        r.append(")");
        r
    }

    /// The line that offers this release for choice. The time of publication is written as this
    /// machine's clock shows it, and left out where the calendar does not reach it.
    pub fn to_string(&self) -> (r: String)
        ensures
            exists|date: Seq<char>| r@ == #[trigger] release_line(
                self.name@,
                text_of(self.desc),
                date,
            ),
    {
        match local_date_time(self.published_at) {
            Some(date) => self.line_with(date.as_str()),
            None => self.line_with(""),
        }
    }
}

impl Asset {
    /// The line that offers this asset for choice, with `size` for its size.
    pub fn line_with(&self, size: &str) -> (r: String)
        ensures
            r@ == asset_line(size@, self.name@, text_of(self.label)),
    {
        let mut r = String::from_str(size);
        r.append("\t");
        r.append(self.name.as_str());
        r.append("\t\t");
        let ghost before = r@;
        match &self.label {
            Some(text) => {
                if !text.as_str().is_empty() {
                    r.append("(");
                    r.append(text.as_str());
                    r.append(")");
                    assert(r@ =~= before + ("("@ + text@ + ")"@));
                } else {
                    assert(r@ =~= before + Seq::<char>::empty());
                }
            },
            None => {
                assert(r@ =~= before + Seq::<char>::empty());
            },
        }
        r
    }

    /// The line that offers this asset for choice.
    pub fn to_string(&self) -> (r: String)
        ensures
            exists|size: Seq<char>| r@ == #[trigger] asset_line(
                size,
                self.name@,
                text_of(self.label),
            ),
    {
        let size = size_text(self.size as u64);
        self.line_with(size.as_str())
    }
}

impl GhRelease {
    /// Marks a release as fetched from these releases.
    pub fn adopt(&self, release: Release) -> (r: Release)
        ensures
            r.gh is Some,
            r.gh.unwrap()@ == self@,
            r == (Release { gh: r.gh, ..release }),
    {
        let mut release = release;
        release.gh = Some(GhRelease { repo: self.repo.duplicate() });
        release
    }

    /// Marks every release of a listing as fetched from these releases.
    pub fn adopt_all(&self, releases: Vec<Release>) -> (r: Vec<Release>)
        ensures
            r.len() == releases.len(),
            forall|i: int|
                0 <= i < r.len() ==> {
                    &&& (#[trigger] r[i]).gh is Some
                    &&& r[i].gh.unwrap()@ == self@
                    &&& r[i] == (Release { gh: r[i].gh, ..releases[i] })
                },
    {
        let mut adopted = releases;
        let mut i: usize = 0;
        while i < adopted.len()
            invariant
                i <= adopted.len(),
                adopted.len() == releases.len(),
                forall|k: int| i <= k < adopted.len() ==> adopted[k] == releases[k],
                forall|k: int|
                    0 <= k < i ==> {
                        &&& (#[trigger] adopted[k]).gh is Some
                        &&& adopted[k].gh.unwrap()@ == self@
                        &&& adopted[k] == (Release { gh: adopted[k].gh, ..releases[k] })
                    },
            decreases adopted.len() - i,
        {
            adopted[i].gh = Some(GhRelease { repo: self.repo.duplicate() });
            i += 1;
        }
        adopted
    }
}

} // verus!
