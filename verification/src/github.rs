//! The parts of the GitHub API that the launcher and its release tool talk
//! to: the data that comes back, and the requests that ask for it.
//!
//! A method of [`Repo`] does not reach GitHub. It describes the request; the
//! caller sends it and decodes the answer.

use crate::pick::{sole_item, sole_match};
use crate::text::{decimal, decimal_string, ends_with, remove_all, without};
use vstd::prelude::*;
use vstd::string::*;

verus! {

/// A file attached to a release.
#[derive(Debug, PartialEq, Eq)]
pub struct ReleaseAsset {
    pub name: String,
    pub browser_download_url: String,
}

/// What a [`ReleaseAsset`] holds.
pub struct ReleaseAssetView {
    pub name: Seq<char>,
    pub browser_download_url: Seq<char>,
}

impl View for ReleaseAsset {
    type V = ReleaseAssetView;

    open spec fn view(&self) -> ReleaseAssetView {
        ReleaseAssetView { name: self.name@, browser_download_url: self.browser_download_url@ }
    }
}

/// A published (or drafted) release of a repository.
#[derive(Debug, PartialEq, Eq)]
pub struct Release {
    pub assets: Vec<ReleaseAsset>,
    pub body: String,
    pub id: u64,
    pub name: String,
    pub tag_name: String,
    /// GitHub's template for the address that takes uploads for this release.
    pub upload_url: String,
}

/// What a [`Release`] holds.
pub struct ReleaseView {
    pub assets: Seq<ReleaseAssetView>,
    pub body: Seq<char>,
    pub id: u64,
    pub name: Seq<char>,
    pub tag_name: Seq<char>,
    pub upload_url: Seq<char>,
}

/// The views of a list of assets, in the same order.
pub open spec fn asset_views(assets: Seq<ReleaseAsset>) -> Seq<ReleaseAssetView> {
    assets.map_values(|a: ReleaseAsset| a@)
}

impl View for Release {
    type V = ReleaseView;

    open spec fn view(&self) -> ReleaseView {
        ReleaseView {
            assets: asset_views(self.assets@),
            body: self.body@,
            id: self.id,
            name: self.name@,
            tag_name: self.tag_name@,
            upload_url: self.upload_url@,
        }
    }
}

/// The pattern that tells which asset of a release belongs to a platform.
#[derive(Debug, PartialEq, Eq)]
pub enum Selector {
    /// The asset's name is exactly this.
    Exact(String),
    /// The asset's name ends with this.
    Suffix(String),
}

/// What a [`Selector`] holds.
pub enum SelectorView {
    Exact(Seq<char>),
    Suffix(Seq<char>),
}

impl View for Selector {
    type V = SelectorView;

    open spec fn view(&self) -> SelectorView {
        match self {
            Selector::Exact(name) => SelectorView::Exact(name@),
            Selector::Suffix(suffix) => SelectorView::Suffix(suffix@),
        }
    }
}

impl SelectorView {
    /// Whether an asset called `name` is one that the selector asks for.
    pub open spec fn matches(self, name: Seq<char>) -> bool {
        match self {
            SelectorView::Exact(wanted) => name == wanted,
            SelectorView::Suffix(suffix) => suffix.is_suffix_of(name),
        }
    }
}

impl Selector {
    /// Whether an asset called `name` is one that the selector asks for.
    pub fn matches(&self, name: &str) -> (r: bool)
        ensures
            r == self@.matches(name@),
    {
        match self {
            Selector::Exact(wanted) => *name == *wanted.as_str(),
            Selector::Suffix(suffix) => ends_with(name, suffix.as_str()),
        }
    }
}

/// The test that `selector` puts to an asset.
pub open spec fn asset_test(selector: SelectorView) -> spec_fn(ReleaseAssetView) -> bool {
    |a: ReleaseAssetView| selector.matches(a.name)
}

/// The asset that `selector` picks from `assets`: the one whose name matches,
/// where exactly one does. With no match, or with several, there is no pick.
pub open spec fn selected_asset(assets: Seq<ReleaseAssetView>, selector: SelectorView) -> Option<
    ReleaseAssetView,
> {
    sole_match(assets, asset_test(selector))
}

/// Picks the asset of `assets` that `selector` asks for.
pub fn select_asset<'a>(assets: &'a Vec<ReleaseAsset>, selector: &Selector) -> (r: Option<
    &'a ReleaseAsset,
>)
    ensures
        (match r {
            Some(asset) => selected_asset(asset_views(assets@), selector@) == Some(asset@),
            None => selected_asset(asset_views(assets@), selector@) is None,
        }),
{
    let ghost views = asset_views(assets@);
    let ghost test = asset_test(selector@);
    let mut hits: Vec<&ReleaseAsset> = Vec::new();
    let mut i: usize = 0;
    proof {
        reveal(Seq::filter);
    }
    while i < assets.len()
        invariant
            i <= assets.len(),
            views == asset_views(assets@),
            test == asset_test(selector@),
            hits@.map_values(|a: &ReleaseAsset| a@) == views.take(i as int).filter(test),
        decreases assets.len() - i,
    {
        let asset = &assets[i];
        proof {
            assert(views.take(i + 1) =~= views.take(i as int).push(asset@));
            views.take(i as int).lemma_filter_push(asset@, test);
        }
        if selector.matches(asset.name.as_str()) {
            hits.push(asset);
        }
        i = i + 1;
    }
    proof {
        assert(views.take(assets.len() as int) =~= views);
    }
    sole_item(hits)
}

/// The commit that a tag points to.
#[derive(Debug, PartialEq, Eq)]
pub struct Commit {
    pub sha: String,
}

/// What a [`Commit`] holds.
pub struct CommitView {
    pub sha: Seq<char>,
}

impl View for Commit {
    type V = CommitView;

    open spec fn view(&self) -> CommitView {
        CommitView { sha: self.sha@ }
    }
}

/// A named pointer to a commit.
#[derive(Debug, PartialEq, Eq)]
pub struct Tag {
    pub name: String,
    pub commit: Commit,
}

/// What a [`Tag`] holds.
pub struct TagView {
    pub name: Seq<char>,
    pub commit: CommitView,
}

impl View for Tag {
    type V = TagView;

    open spec fn view(&self) -> TagView {
        TagView { name: self.name@, commit: self.commit@ }
    }
}

/// The views of a list of tags, in the same order.
pub open spec fn tag_views(tags: Seq<Tag>) -> Seq<TagView> {
    tags.map_values(|t: Tag| t@)
}

/// How a request is made.
#[derive(Clone, Copy, Debug, PartialEq, Eq, Structural)]
pub enum Method {
    Get,
    Post,
    Patch,
}

/// What a request carries in its body.
#[derive(Debug, PartialEq, Eq)]
pub enum Payload {
    /// Nothing.
    Empty,
    /// A JSON object with the members `body`, `draft`, `name` and `tag_name`.
    NewRelease { body: String, draft: bool, name: String, tag_name: String },
    /// A JSON object with the single member `draft`.
    Draft { draft: bool },
    /// The bytes of a file, which the caller supplies, sent under this
    /// `Content-Type`.
    File { content_type: String },
}

/// What a [`Payload`] holds.
pub enum PayloadView {
    Empty,
    NewRelease { body: Seq<char>, draft: bool, name: Seq<char>, tag_name: Seq<char> },
    Draft { draft: bool },
    File { content_type: Seq<char> },
}

impl View for Payload {
    type V = PayloadView;

    open spec fn view(&self) -> PayloadView {
        match self {
            Payload::Empty => PayloadView::Empty,
            Payload::NewRelease { body, draft, name, tag_name } => PayloadView::NewRelease {
                body: body@,
                draft: *draft,
                name: name@,
                tag_name: tag_name@,
            },
            Payload::Draft { draft } => PayloadView::Draft { draft: *draft },
            Payload::File { content_type } => PayloadView::File { content_type: content_type@ },
        }
    }
}

/// A request to the GitHub API, ready to be sent.
#[derive(Debug, PartialEq, Eq)]
pub struct Request {
    pub method: Method,
    /// The address, without the query parameters in `query`.
    pub url: String,
    /// Query parameters, as pairs of name and value, not yet encoded.
    pub query: Vec<(String, String)>,
    pub payload: Payload,
}

/// What a [`Request`] holds.
pub struct RequestView {
    pub method: Method,
    pub url: Seq<char>,
    pub query: Seq<(Seq<char>, Seq<char>)>,
    pub payload: PayloadView,
}

impl View for Request {
    type V = RequestView;

    open spec fn view(&self) -> RequestView {
        RequestView {
            method: self.method,
            url: self.url@,
            query: self.query@.map_values(|p: (String, String)| (p.0@, p.1@)),
            payload: self.payload@,
        }
    }
}

/// A GitHub repository.
#[derive(Debug, PartialEq, Eq)]
pub struct Repo {
    /// The GitHub user or organization who owns this repo.
    pub user: String,
    /// The name of the repo.
    pub name: String,
}

/// What a [`Repo`] holds.
pub struct RepoView {
    pub user: Seq<char>,
    pub name: Seq<char>,
}

impl View for Repo {
    type V = RepoView;

    open spec fn view(&self) -> RepoView {
        RepoView { user: self.user@, name: self.name@ }
    }
}

/// The placeholder that GitHub puts at the end of an upload address.
pub const UPLOAD_PLACEHOLDER: &'static str = "{?name,label}";

/// The address of `tail` below the API entry of `repo`.
pub open spec fn api_url(repo: RepoView, tail: Seq<char>) -> Seq<char> {
    "https://api.github.com/repos/"@ + repo.user + "/"@ + repo.name + tail
}

/// A request without query parameters and without a body.
pub open spec fn plain_get(url: Seq<char>) -> RequestView {
    RequestView { method: Method::Get, url, query: Seq::empty(), payload: PayloadView::Empty }
}

/// The request that asks for the latest release of `repo`.
pub open spec fn latest_release_request(repo: RepoView) -> RequestView {
    plain_get(api_url(repo, "/releases/latest"@))
}

/// The request that asks for the tags of `repo`.
pub open spec fn tags_request(repo: RepoView) -> RequestView {
    plain_get(api_url(repo, "/tags"@))
}

/// The request that creates a draft release of `repo`.
pub open spec fn create_release_request(
    repo: RepoView,
    name: Seq<char>,
    tag_name: Seq<char>,
    body: Seq<char>,
) -> RequestView {
    RequestView {
        method: Method::Post,
        url: api_url(repo, "/releases"@),
        query: Seq::empty(),
        payload: PayloadView::NewRelease { body, draft: true, name, tag_name },
    }
}

/// The request that turns the draft with identifier `id` into a published
/// release.
pub open spec fn publish_release_request(repo: RepoView, id: u64) -> RequestView {
    RequestView {
        method: Method::Patch,
        url: api_url(repo, "/releases/"@ + decimal(id as nat)),
        query: Seq::empty(),
        payload: PayloadView::Draft { draft: false },
    }
}

/// The request that uploads a file as the asset `name` of the release whose
/// upload template is `upload_url`: the template without its placeholder, and
/// the asset's name as the query parameter `name`. Every placeholder that the
/// template holds is taken out in one pass from the left; one that only comes
/// about by joining what is left of the template stays.
pub open spec fn release_attach_request(
    upload_url: Seq<char>,
    name: Seq<char>,
    content_type: Seq<char>,
) -> RequestView {
    RequestView {
        method: Method::Post,
        url: without(upload_url, UPLOAD_PLACEHOLDER@),
        query: seq![("name"@, name)],
        payload: PayloadView::File { content_type },
    }
}

impl Repo {
    /// The repository `name` of `user`.
    pub fn new(user: &str, name: &str) -> (repo: Repo)
        ensures
            repo@ == (RepoView { user: user@, name: name@ }),
    {
        Repo { user: String::from_str(user), name: String::from_str(name) }
    }

    fn url(&self, tail: &str) -> (url: String)
        ensures
            url@ == api_url(self@, tail@),
    {
        let mut url = String::from_str("https://api.github.com/repos/");
        url.append(self.user.as_str());
        url.append("/");
        url.append(self.name.as_str());
        url.append(tail);
        url
    }

    /// The request for the latest release.
    pub fn latest_release(&self) -> (request: Request)
        ensures
            request@ == latest_release_request(self@),
    {
        let request = Request {
            method: Method::Get,
            url: self.url("/releases/latest"),
            query: Vec::new(),
            payload: Payload::Empty,
        };
        assert(request@.query =~= Seq::empty());
        request
    }

    /// The request that creates a draft release, which can be published using
    /// [`Repo::publish_release`].
    pub fn create_release(&self, name: String, tag_name: String, body: String) -> (request: Request)
        ensures
            request@ == create_release_request(self@, name@, tag_name@, body@),
    {
        let request = Request {
            method: Method::Post,
            url: self.url("/releases"),
            query: Vec::new(),
            payload: Payload::NewRelease { body, draft: true, name, tag_name },
        };
        assert(request@.query =~= Seq::empty());
        request
    }

    /// The request that publishes a draft release.
    pub fn publish_release(&self, release: &Release) -> (request: Request)
        ensures
            request@ == publish_release_request(self@, release.id),
    {
        let mut tail = String::from_str("/releases/");
        let id = decimal_string(release.id);
        tail.append(id.as_str());
        let request = Request {
            method: Method::Patch,
            url: self.url(tail.as_str()),
            query: Vec::new(),
            payload: Payload::Draft { draft: false },
        };
        assert(request@.query =~= Seq::empty());
        request
    }

    /// The request that attaches a file to a release under the name `name`.
    pub fn release_attach(&self, release: &Release, name: &str, content_type: &str) -> (request:
        Request)
        ensures
            request@ == release_attach_request(release.upload_url@, name@, content_type@),
    {
        let mut query: Vec<(String, String)> = Vec::new();
        query.push((String::from_str("name"), String::from_str(name)));
        let request = Request {
            method: Method::Post,
            url: remove_all(release.upload_url.as_str(), UPLOAD_PLACEHOLDER),
            query,
            payload: Payload::File { content_type: String::from_str(content_type) },
        };
        assert(request@.query =~= seq![("name"@, name@)]);
        request
    }

    /// The request for the tags of the repository.
    pub fn tags(&self) -> (request: Request)
        ensures
            request@ == tags_request(self@),
    {
        let request = Request {
            method: Method::Get,
            url: self.url("/tags"),
            query: Vec::new(),
            payload: Payload::Empty,
        };
        assert(request@.query =~= Seq::empty());
        request
    }
}

} // verus!
