//! Value types of the engine and their mathematical views.

use vstd::prelude::*;

verus! {

/// The views of the items of a sequence, item by item.
pub open spec fn views<T: View>(s: Seq<T>) -> Seq<T::V> {
    Seq::new(s.len(), |i: int| s[i]@)
}

/// The text of an optional string.
pub open spec fn text_of(o: Option<String>) -> Option<Seq<char>> {
    match o {
        Some(s) => Some(s@),
        None => None,
    }
}

/// Language names with their usage weights, as texts.
pub open spec fn usage_views(s: Seq<(String, u32)>) -> Seq<(Seq<char>, u32)> {
    Seq::new(s.len(), |i: int| (s[i].0@, s[i].1))
}

/// A repository as reported by the code-hosting service.
#[derive(Clone, Debug, PartialEq, Eq)]
pub struct Repository {
    pub name: String,
    pub full_name: String,
    pub description: Option<String>,
    pub language: Option<String>,
    pub stars: u32,
    pub forks: u32,
    pub size: u32,
    pub is_fork: bool,
    pub is_private: bool,
    pub created_at: String,
    pub updated_at: String,
    pub pushed_at: String,
    pub commits_count: Option<u32>,
}

/// A repository with its texts as such.
#[verifier::ext_equal]
pub struct RepositoryView {
    pub name: Seq<char>,
    pub full_name: Seq<char>,
    pub description: Option<Seq<char>>,
    pub language: Option<Seq<char>>,
    pub stars: u32,
    pub forks: u32,
    pub size: u32,
    pub is_fork: bool,
    pub is_private: bool,
    pub created_at: Seq<char>,
    pub updated_at: Seq<char>,
    pub pushed_at: Seq<char>,
    pub commits_count: Option<u32>,
}

impl View for Repository {
    type V = RepositoryView;

    open spec fn view(&self) -> RepositoryView {
        RepositoryView {
            name: self.name@,
            full_name: self.full_name@,
            description: text_of(self.description),
            language: text_of(self.language),
            stars: self.stars,
            forks: self.forks,
            size: self.size,
            is_fork: self.is_fork,
            is_private: self.is_private,
            created_at: self.created_at@,
            updated_at: self.updated_at@,
            pushed_at: self.pushed_at@,
            commits_count: self.commits_count,
        }
    }
}

/// A point-in-time set of metrics about one developer: the input of the
/// badge engine.
///
/// `languages` lists each language once, in the order in which language
/// badges are awarded. The three scores are whole numbers: a fractional score
/// is cut off toward zero before it is stored here.
#[derive(Clone, Debug, PartialEq, Eq)]
pub struct GitHubAnalysis {
    pub username: String,
    pub total_repos: u32,
    pub total_commits: u32,
    pub total_stars_received: u32,
    pub total_forks_received: u32,
    pub languages: Vec<(String, u32)>,
    pub repositories: Vec<Repository>,
    pub contributions_this_year: u32,
    pub account_age_days: u32,
    pub followers: u32,
    pub following: u32,
    pub analyzed_at: u64,
    pub commit_frequency_score: u32,
    pub code_quality_score: u32,
    pub community_engagement_score: u32,
}

/// A snapshot with its texts as such: what the engine's results are stated
/// over.
#[verifier::ext_equal]
pub struct GitHubAnalysisView {
    pub username: Seq<char>,
    pub total_repos: u32,
    pub total_commits: u32,
    pub total_stars_received: u32,
    pub total_forks_received: u32,
    pub languages: Seq<(Seq<char>, u32)>,
    pub repositories: Seq<RepositoryView>,
    pub contributions_this_year: u32,
    pub account_age_days: u32,
    pub followers: u32,
    pub following: u32,
    pub analyzed_at: u64,
    pub commit_frequency_score: u32,
    pub code_quality_score: u32,
    pub community_engagement_score: u32,
}

impl View for GitHubAnalysis {
    type V = GitHubAnalysisView;

    open spec fn view(&self) -> GitHubAnalysisView {
        GitHubAnalysisView {
            username: self.username@,
            total_repos: self.total_repos,
            total_commits: self.total_commits,
            total_stars_received: self.total_stars_received,
            total_forks_received: self.total_forks_received,
            languages: usage_views(self.languages@),
            repositories: views(self.repositories@),
            contributions_this_year: self.contributions_this_year,
            account_age_days: self.account_age_days,
            followers: self.followers,
            following: self.following,
            analyzed_at: self.analyzed_at,
            commit_frequency_score: self.commit_frequency_score,
            code_quality_score: self.code_quality_score,
            community_engagement_score: self.community_engagement_score,
        }
    }
}

impl GitHubAnalysisView {
    /// No language is listed twice.
    pub open spec fn languages_distinct(self) -> bool {
        forall|i: int, j: int|
            0 <= i < j < self.languages.len() ==> (#[trigger] self.languages[i]).0 != (
            #[trigger] self.languages[j]).0
    }
}

/// What a badge was awarded for.
#[derive(Clone, Debug, PartialEq, Eq)]
pub enum BadgeCategory {
    Language(String),
    Contribution(String),
    Achievement(String),
    Special(String),
}

/// A category with its kind as text.
#[verifier::ext_equal]
pub enum BadgeCategoryView {
    Language(Seq<char>),
    Contribution(Seq<char>),
    Achievement(Seq<char>),
    Special(Seq<char>),
}

impl View for BadgeCategory {
    type V = BadgeCategoryView;

    open spec fn view(&self) -> BadgeCategoryView {
        match self {
            BadgeCategory::Language(s) => BadgeCategoryView::Language(s@),
            BadgeCategory::Contribution(s) => BadgeCategoryView::Contribution(s@),
            BadgeCategory::Achievement(s) => BadgeCategoryView::Achievement(s@),
            BadgeCategory::Special(s) => BadgeCategoryView::Special(s@),
        }
    }
}

/// One presentation attribute of a badge: a trait, its value and an optional
/// hint on how to display the value.
#[derive(Clone, Debug, PartialEq, Eq)]
pub struct BadgeAttribute {
    pub trait_type: String,
    pub value: String,
    pub display_type: Option<String>,
}

/// An attribute with its texts as such.
#[verifier::ext_equal]
pub struct BadgeAttributeView {
    pub trait_type: Seq<char>,
    pub value: Seq<char>,
    pub display_type: Option<Seq<char>>,
}

impl View for BadgeAttribute {
    type V = BadgeAttributeView;

    open spec fn view(&self) -> BadgeAttributeView {
        BadgeAttributeView {
            trait_type: self.trait_type@,
            value: self.value@,
            display_type: text_of(self.display_type),
        }
    }
}

/// How a badge is presented.
#[derive(Clone, Debug, PartialEq, Eq)]
pub struct BadgeMetadata {
    pub image_url: String,
    pub animation_url: Option<String>,
    pub attributes: Vec<BadgeAttribute>,
    pub rarity_score: u32,
}

/// The presentation of a badge with its texts as such.
#[verifier::ext_equal]
pub struct BadgeMetadataView {
    pub image_url: Seq<char>,
    pub animation_url: Option<Seq<char>>,
    pub attributes: Seq<BadgeAttributeView>,
    pub rarity_score: u32,
}

impl View for BadgeMetadata {
    type V = BadgeMetadataView;

    open spec fn view(&self) -> BadgeMetadataView {
        BadgeMetadataView {
            image_url: self.image_url@,
            animation_url: text_of(self.animation_url),
            attributes: views(self.attributes@),
            rarity_score: self.rarity_score,
        }
    }
}

/// One earned achievement.
#[derive(Clone, Debug, PartialEq, Eq)]
pub struct Badge {
    pub id: String,
    pub name: String,
    pub description: String,
    pub category: BadgeCategory,
    pub tier: BadgeTier,
    pub earned_at: u64,
    pub criteria_met: Vec<String>,
    pub score_achieved: u32,
    pub metadata: BadgeMetadata,
}

/// A badge with its texts as such: two badges with equal views are equal
/// in every field.
#[verifier::ext_equal]
pub struct BadgeView {
    pub id: Seq<char>,
    pub name: Seq<char>,
    pub description: Seq<char>,
    pub category: BadgeCategoryView,
    pub tier: BadgeTier,
    pub earned_at: u64,
    pub criteria_met: Seq<Seq<char>>,
    pub score_achieved: u32,
    pub metadata: BadgeMetadataView,
}

impl View for Badge {
    type V = BadgeView;

    open spec fn view(&self) -> BadgeView {
        BadgeView {
            id: self.id@,
            name: self.name@,
            description: self.description@,
            category: self.category@,
            tier: self.tier,
            earned_at: self.earned_at,
            criteria_met: views(self.criteria_met@),
            score_achieved: self.score_achieved,
            metadata: self.metadata@,
        }
    }
}

/// The public profile of an account at the code-hosting service.
#[derive(Clone, Debug, PartialEq, Eq)]
pub struct GitHubData {
    pub login: String,
    pub name: Option<String>,
    pub avatar_url: String,
    pub bio: Option<String>,
    pub public_repos: u32,
    pub followers: u32,
    pub following: u32,
    pub created_at: String,
    pub updated_at: String,
}

/// A profile at the code-hosting service with its texts as such.
#[verifier::ext_equal]
pub struct GitHubDataView {
    pub login: Seq<char>,
    pub name: Option<Seq<char>>,
    pub avatar_url: Seq<char>,
    pub bio: Option<Seq<char>>,
    pub public_repos: u32,
    pub followers: u32,
    pub following: u32,
    pub created_at: Seq<char>,
    pub updated_at: Seq<char>,
}

impl View for GitHubData {
    type V = GitHubDataView;

    open spec fn view(&self) -> GitHubDataView {
        GitHubDataView {
            login: self.login@,
            name: text_of(self.name),
            avatar_url: self.avatar_url@,
            bio: text_of(self.bio),
            public_repos: self.public_repos,
            followers: self.followers,
            following: self.following,
            created_at: self.created_at@,
            updated_at: self.updated_at@,
        }
    }
}

/// The code and state that the authorisation redirect hands back.
#[derive(Clone, Debug, PartialEq, Eq)]
pub struct GitHubOAuthRequest {
    pub code: String,
    pub state: String,
}

/// The access token that an authorisation code is exchanged for.
#[derive(Clone, Debug, PartialEq, Eq)]
pub struct GitHubOAuthResponse {
    pub access_token: String,
    pub token_type: String,
    pub scope: String,
}

/// What a user may do.
#[derive(Clone, Copy, Debug, PartialEq, Eq, Structural)]
pub enum UserRole {
    User,
    Admin,
    Moderator,
}

/// The envelope of an answer: either data or an error text, with the time
/// of the answer.
#[derive(Clone, Debug, PartialEq, Eq)]
pub struct ApiResponse<T> {
    pub success: bool,
    pub data: Option<T>,
    pub error: Option<String>,
    pub timestamp: u64,
}

/// An HTTP request.
#[derive(Clone, Debug, PartialEq, Eq)]
pub struct HttpRequest {
    pub method: String,
    pub url: String,
    pub headers: Vec<(String, String)>,
    pub body: Vec<u8>,
}

/// Header names with their values, as texts.
pub open spec fn header_views(s: Seq<(String, String)>) -> Seq<(Seq<char>, Seq<char>)> {
    Seq::new(s.len(), |i: int| (s[i].0@, s[i].1@))
}

/// A request with its texts as such.
#[verifier::ext_equal]
pub struct HttpRequestView {
    pub method: Seq<char>,
    pub url: Seq<char>,
    pub headers: Seq<(Seq<char>, Seq<char>)>,
    pub body: Seq<u8>,
}

impl View for HttpRequest {
    type V = HttpRequestView;

    open spec fn view(&self) -> HttpRequestView {
        HttpRequestView {
            method: self.method@,
            url: self.url@,
            headers: header_views(self.headers@),
            body: self.body@,
        }
    }
}

/// One header of an HTTP response.
#[derive(Clone, Debug, PartialEq, Eq)]
pub struct HttpHeader {
    pub name: String,
    pub value: String,
}

impl View for HttpHeader {
    type V = (Seq<char>, Seq<char>);

    open spec fn view(&self) -> (Seq<char>, Seq<char>) {
        (self.name@, self.value@)
    }
}

/// An HTTP response.
#[derive(Clone, Debug, PartialEq, Eq)]
pub struct HttpResponse {
    pub status_code: u16,
    pub headers: Vec<HttpHeader>,
    pub body: Vec<u8>,
}

/// A response with its texts as such.
#[verifier::ext_equal]
pub struct HttpResponseView {
    pub status_code: u16,
    pub headers: Seq<(Seq<char>, Seq<char>)>,
    pub body: Seq<u8>,
}

impl View for HttpResponse {
    type V = HttpResponseView;

    open spec fn view(&self) -> HttpResponseView {
        HttpResponseView {
            status_code: self.status_code,
            headers: views(self.headers@),
            body: self.body@,
        }
    }
}

/// Whether a badge with the identifier is among the badges.
pub open spec fn holds_id(badges: Seq<BadgeView>, id: Seq<char>) -> bool {
    exists|i: int| 0 <= i < badges.len() && (#[trigger] badges[i]).id == id
}

/// Whether no two of the badges have the same identifier.
pub open spec fn ids_distinct(badges: Seq<BadgeView>) -> bool {
    forall|i: int, j: int|
        0 <= i < j < badges.len() ==> (#[trigger] badges[i]).id != (#[trigger] badges[j]).id
}

/// One of nine ranked levels, three per band.
#[derive(Clone, Copy, Debug, PartialEq, Eq, Structural)]
pub enum BadgeTier {
    Bronze1,
    Bronze2,
    Bronze3,
    Silver1,
    Silver2,
    Silver3,
    Gold1,
    Gold2,
    Gold3,
}

impl BadgeTier {
    /// Position of the tier in the ranking, from 0 (Bronze I) to 8 (Gold III).
    pub open spec fn rank(self) -> nat {
        match self {
            BadgeTier::Bronze1 => 0,
            BadgeTier::Bronze2 => 1,
            BadgeTier::Bronze3 => 2,
            BadgeTier::Silver1 => 3,
            BadgeTier::Silver2 => 4,
            BadgeTier::Silver3 => 5,
            BadgeTier::Gold1 => 6,
            BadgeTier::Gold2 => 7,
            BadgeTier::Gold3 => 8,
        }
    }

    /// The fixed point value of the tier.
    pub open spec fn points(self) -> nat {
        match self {
            BadgeTier::Bronze1 => 10,
            BadgeTier::Bronze2 => 20,
            BadgeTier::Bronze3 => 30,
            BadgeTier::Silver1 => 50,
            BadgeTier::Silver2 => 75,
            BadgeTier::Silver3 => 100,
            BadgeTier::Gold1 => 150,
            BadgeTier::Gold2 => 200,
            BadgeTier::Gold3 => 300,
        }
    }

    /// The display colour of the tier's band.
    pub open spec fn color(self) -> Seq<char> {
        match self {
            BadgeTier::Bronze1 | BadgeTier::Bronze2 | BadgeTier::Bronze3 => "#CD7F32"@,
            BadgeTier::Silver1 | BadgeTier::Silver2 | BadgeTier::Silver3 => "#C0C0C0"@,
            BadgeTier::Gold1 | BadgeTier::Gold2 | BadgeTier::Gold3 => "#FFD700"@,
        }
    }

    /// The human-readable name of the tier.
    pub open spec fn display_name(self) -> Seq<char> {
        match self {
            BadgeTier::Bronze1 => "Bronze I"@,
            BadgeTier::Bronze2 => "Bronze II"@,
            BadgeTier::Bronze3 => "Bronze III"@,
            BadgeTier::Silver1 => "Silver I"@,
            BadgeTier::Silver2 => "Silver II"@,
            BadgeTier::Silver3 => "Silver III"@,
            BadgeTier::Gold1 => "Gold I"@,
            BadgeTier::Gold2 => "Gold II"@,
            BadgeTier::Gold3 => "Gold III"@,
        }
    }

    /// The point value of the tier.
    pub fn get_points(&self) -> (p: u32)
        ensures
            p == self.points(),
    {
        match self {
            BadgeTier::Bronze1 => 10,
            BadgeTier::Bronze2 => 20,
            BadgeTier::Bronze3 => 30,
            BadgeTier::Silver1 => 50,
            BadgeTier::Silver2 => 75,
            BadgeTier::Silver3 => 100,
            BadgeTier::Gold1 => 150,
            BadgeTier::Gold2 => 200,
            BadgeTier::Gold3 => 300,
        }
    }

    /// The display colour of the tier's band.
    pub fn get_color(&self) -> (c: &'static str)
        ensures
            c@ == self.color(),
    {
        match self {
            BadgeTier::Bronze1 | BadgeTier::Bronze2 | BadgeTier::Bronze3 => "#CD7F32",
            BadgeTier::Silver1 | BadgeTier::Silver2 | BadgeTier::Silver3 => "#C0C0C0",
            BadgeTier::Gold1 | BadgeTier::Gold2 | BadgeTier::Gold3 => "#FFD700",
        }
    }

    /// The human-readable name of the tier.
    pub fn get_display_name(&self) -> (n: &'static str)
        ensures
            n@ == self.display_name(),
    {
        match self {
            BadgeTier::Bronze1 => "Bronze I",
            BadgeTier::Bronze2 => "Bronze II",
            BadgeTier::Bronze3 => "Bronze III",
            BadgeTier::Silver1 => "Silver I",
            BadgeTier::Silver2 => "Silver II",
            BadgeTier::Silver3 => "Silver III",
            BadgeTier::Gold1 => "Gold I",
            BadgeTier::Gold2 => "Gold II",
            BadgeTier::Gold3 => "Gold III",
        }
    }
}

/// A higher tier is never worth fewer points than a lower one.
pub proof fn lemma_points_monotonic(a: BadgeTier, b: BadgeTier)
    requires
        a.rank() <= b.rank(),
    ensures
        a.points() <= b.points(),
{
}

} // verus!
