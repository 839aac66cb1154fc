//! Badge assembly: the records built around what the classifiers return.
//!
//! Every badge of one run carries the timestamp that the caller supplies. The
//! badges come in a fixed order: languages in the order of the snapshot, then
//! contributions (open source, community, consistency), then achievements
//! (repositories, commits, stars, streak), then special badges (early
//! adopter, polyglot, innovator).

use crate::classify::{
    commit_criterion, commit_tier, contribution_criterion, contribution_tier,
    determine_commit_achievement, determine_contribution_tier, determine_language_tier,
    determine_repository_achievement, determine_star_achievement, determine_streak_achievement,
    language_criterion, language_score, language_tier, repos_using, repository_criterion,
    repository_tier, star_criterion, star_tier, streak_criterion, streak_tier,
};
use crate::models::{
    holds_id, ids_distinct, views, Badge, BadgeAttribute, BadgeAttributeView, BadgeCategory,
    BadgeCategoryView, BadgeMetadata, BadgeMetadataView, BadgeTier, BadgeView, GitHubAnalysis,
    GitHubAnalysisView, Repository, RepositoryView,
};
use crate::text::{decimal_string, decimal_text, join2, join3, lowercase_text, to_lowercase};
use vstd::prelude::*;
use vstd::string::*;

verus! {

/// An attribute whose value is shown as it is.
pub open spec fn plain_attribute(trait_type: Seq<char>, value: Seq<char>) -> BadgeAttributeView {
    BadgeAttributeView { trait_type, value, display_type: None }
}

/// An attribute whose value is a number in decimal, to be shown as a number.
pub open spec fn number_attribute(trait_type: Seq<char>, n: nat) -> BadgeAttributeView {
    BadgeAttributeView { trait_type, value: decimal_text(n), display_type: Some("number"@) }
}

/// The image of a badge: its folder under `/badges/` and its file stem.
pub open spec fn image_url(folder: Seq<char>, stem: Seq<char>) -> Seq<char> {
    "/badges/"@ + folder + "/"@ + stem + ".svg"@
}

/// The animation of a badge: its folder under `/badges/` and its file stem.
pub open spec fn animation_url(folder: Seq<char>, stem: Seq<char>) -> Seq<char> {
    "/badges/"@ + folder + "/"@ + stem + "_animated.gif"@
}

fn plain_attribute_of(trait_type: &str, value: &str) -> (a: BadgeAttribute)
    ensures
        a@ == plain_attribute(trait_type@, value@),
{
    BadgeAttribute {
        trait_type: String::from_str(trait_type),
        value: String::from_str(value),
        display_type: None,
    }
}

fn number_attribute_of(trait_type: &str, n: u32) -> (a: BadgeAttribute)
    ensures
        a@ == number_attribute(trait_type@, n as nat),
{
    BadgeAttribute {
        trait_type: String::from_str(trait_type),
        value: decimal_string(n as u64),
        display_type: Some(String::from_str("number")),
    }
}

fn image_url_of(folder: &str, stem: &str) -> (url: String)
    ensures
        url@ == image_url(folder@, stem@),
{
    let mut url = join3("/badges/", folder, "/");
    url.append(stem);
    url.append(".svg");
    url
}

fn animation_url_of(folder: &str, stem: &str) -> (url: String)
    ensures
        url@ == animation_url(folder@, stem@),
{
    let mut url = join3("/badges/", folder, "/");
    url.append(stem);
    url.append("_animated.gif");
    url
}

fn one_line(text: &str) -> (lines: Vec<String>)
    ensures
        views(lines@) == seq![text@],
{
    let mut lines: Vec<String> = Vec::new();
    lines.push(String::from_str(text));
    assert(views(lines@) =~= seq![text@]);
    lines
}

/// The badge for a contribution score: the given texts, category, tier,
/// justification, score and timestamp, with the presentation of contribution
/// badges. Its rarity is the tier's point value.
pub open spec fn contribution_badge(
    id: Seq<char>,
    name: Seq<char>,
    description: Seq<char>,
    category: BadgeCategoryView,
    tier: BadgeTier,
    criteria: Seq<Seq<char>>,
    score: u32,
    earned_at: u64,
) -> BadgeView {
    BadgeView {
        id,
        name,
        description,
        category,
        tier,
        earned_at,
        criteria_met: criteria,
        score_achieved: score,
        metadata: BadgeMetadataView {
            image_url: image_url("contributions"@, id),
            animation_url: Some(animation_url("contributions"@, id)),
            attributes: seq![
                plain_attribute("Category"@, "Contribution"@),
                number_attribute("Score"@, score as nat),
            ],
            rarity_score: tier.points() as u32,
        },
    }
}

/// Builds the badge for a contribution score.
pub fn create_contribution_badge(
    id: &str,
    name: &str,
    description: &str,
    category: BadgeCategory,
    tier: BadgeTier,
    criteria: Vec<String>,
    score: u32,
    earned_at: u64,
) -> (badge: Badge)
    ensures
        badge@ == contribution_badge(
            id@,
            name@,
            description@,
            category@,
            tier,
            views(criteria@),
            score,
            earned_at,
        ),
{
    let mut attributes: Vec<BadgeAttribute> = Vec::new();
    attributes.push(plain_attribute_of("Category", "Contribution"));
    attributes.push(number_attribute_of("Score", score));
    assert(views(attributes@) =~= seq![
        plain_attribute("Category"@, "Contribution"@),
        number_attribute("Score"@, score as nat),
    ]);
    Badge {
        id: String::from_str(id),
        name: String::from_str(name),
        description: String::from_str(description),
        category,
        tier,
        earned_at,
        criteria_met: criteria,
        score_achieved: score,
        metadata: BadgeMetadata {
            image_url: image_url_of("contributions", id),
            animation_url: Some(animation_url_of("contributions", id)),
            attributes,
            rarity_score: tier.get_points(),
        },
    }
}

/// The badge for a milestone: the given texts, tier, justification, score and
/// timestamp, in the achievement category named like the badge, with the
/// presentation of achievement badges. Its rarity is the tier's point value.
pub open spec fn achievement_badge(
    id: Seq<char>,
    name: Seq<char>,
    description: Seq<char>,
    tier: BadgeTier,
    criteria: Seq<Seq<char>>,
    score: u32,
    earned_at: u64,
) -> BadgeView {
    BadgeView {
        id,
        name,
        description,
        category: BadgeCategoryView::Achievement(name),
        tier,
        earned_at,
        criteria_met: criteria,
        score_achieved: score,
        metadata: BadgeMetadataView {
            image_url: image_url("achievements"@, id),
            animation_url: Some(animation_url("achievements"@, id)),
            attributes: seq![
                plain_attribute("Achievement Type"@, name),
                number_attribute("Score"@, score as nat),
            ],
            rarity_score: tier.points() as u32,
        },
    }
}

/// Builds the badge for a milestone.
pub fn create_achievement_badge(
    id: &str,
    name: &str,
    description: &str,
    tier: BadgeTier,
    criteria: Vec<String>,
    score: u32,
    earned_at: u64,
) -> (badge: Badge)
    ensures
        badge@ == achievement_badge(
            id@,
            name@,
            description@,
            tier,
            views(criteria@),
            score,
            earned_at,
        ),
{
    let mut attributes: Vec<BadgeAttribute> = Vec::new();
    attributes.push(plain_attribute_of("Achievement Type", name));
    attributes.push(number_attribute_of("Score", score));
    assert(views(attributes@) =~= seq![
        plain_attribute("Achievement Type"@, name@),
        number_attribute("Score"@, score as nat),
    ]);
    Badge {
        id: String::from_str(id),
        name: String::from_str(name),
        description: String::from_str(description),
        category: BadgeCategory::Achievement(String::from_str(name)),
        tier,
        earned_at,
        criteria_met: criteria,
        score_achieved: score,
        metadata: BadgeMetadata {
            image_url: image_url_of("achievements", id),
            animation_url: Some(animation_url_of("achievements", id)),
            attributes,
            rarity_score: tier.get_points(),
        },
    }
}

/// The presentation of a special badge of the given type. Its rarity is the
/// tier's point value.
pub open spec fn special_badge_metadata(
    badge_type: Seq<char>,
    tier: BadgeTier,
    score: u32,
) -> BadgeMetadataView {
    BadgeMetadataView {
        image_url: image_url("special"@, badge_type),
        animation_url: Some(animation_url("special"@, badge_type)),
        attributes: seq![
            plain_attribute("Special Type"@, badge_type),
            number_attribute("Achievement Score"@, score as nat),
        ],
        rarity_score: tier.points() as u32,
    }
}

/// Builds the presentation of a special badge.
pub fn create_special_badge_metadata(badge_type: &str, tier: BadgeTier, score: u32) -> (metadata:
    BadgeMetadata)
    ensures
        metadata@ == special_badge_metadata(badge_type@, tier, score),
{
    let mut attributes: Vec<BadgeAttribute> = Vec::new();
    attributes.push(plain_attribute_of("Special Type", badge_type));
    attributes.push(number_attribute_of("Achievement Score", score));
    assert(views(attributes@) =~= seq![
        plain_attribute("Special Type"@, badge_type@),
        number_attribute("Achievement Score"@, score as nat),
    ]);
    BadgeMetadata {
        image_url: image_url_of("special", badge_type),
        animation_url: Some(animation_url_of("special", badge_type)),
        attributes,
        rarity_score: tier.get_points(),
    }
}

/// The badge for a language that earned a tier. Its identifier and image are
/// named after the language in lower case; its rarity is the tier's point
/// value.
pub open spec fn language_badge(
    language: Seq<char>,
    lines_of_code: u32,
    tier: BadgeTier,
    criteria: Seq<Seq<char>>,
    score: u32,
    earned_at: u64,
) -> BadgeView {
    BadgeView {
        id: "lang_"@ + lowercase_text(language),
        name: language + " Expert"@,
        description: "Demonstrated expertise in "@ + language + " programming"@,
        category: BadgeCategoryView::Language(language),
        tier,
        earned_at,
        criteria_met: criteria,
        score_achieved: score,
        metadata: BadgeMetadataView {
            image_url: image_url("languages"@, lowercase_text(language)),
            animation_url: Some(animation_url("languages"@, lowercase_text(language))),
            attributes: seq![
                plain_attribute("Language"@, language),
                number_attribute("Lines of Code"@, lines_of_code as nat),
                plain_attribute("Tier"@, tier.display_name()),
            ],
            rarity_score: tier.points() as u32,
        },
    }
}

/// What one language of the snapshot earns: one badge, or nothing.
pub open spec fn language_award(
    language: Seq<char>,
    lines_of_code: u32,
    repositories: Seq<RepositoryView>,
    earned_at: u64,
) -> Seq<BadgeView> {
    let repos = repos_using(repositories, language);
    match language_tier(lines_of_code as nat, repos) {
        Some(tier) => seq![
            language_badge(
                language,
                lines_of_code,
                tier,
                seq![language_criterion(tier, lines_of_code as nat, repos, language)],
                language_score(lines_of_code as nat) as u32,
                earned_at,
            ),
        ],
        None => seq![],
    }
}

/// The language badges of a snapshot, in the order of its languages. A
/// language badge is named after its language in lower case, so two
/// languages whose names agree in lower case would be given one identifier:
/// of such languages only the first that earns a badge is awarded one.
pub open spec fn language_badges(
    languages: Seq<(Seq<char>, u32)>,
    repositories: Seq<RepositoryView>,
    earned_at: u64,
) -> Seq<BadgeView>
    decreases languages.len(),
{
    if languages.len() == 0 {
        seq![]
    } else {
        let before = language_badges(languages.drop_last(), repositories, earned_at);
        let award = language_award(
            languages.last().0,
            languages.last().1,
            repositories,
            earned_at,
        );
        if award.len() > 0 && holds_id(before, award[0].id) {
            before
        } else {
            before + award
        }
    }
}

/// Whether a badge with the identifier is among the badges.
pub fn has_badge(badges: &Vec<Badge>, id: &String) -> (r: bool)
    ensures
        r == holds_id(views(badges@), id@),
{
    let mut i: usize = 0;
    while i < badges.len()
        invariant
            i <= badges@.len(),
            forall|k: int| 0 <= k < i ==> (#[trigger] views(badges@)[k]).id != id@,
        decreases badges.len() - i,
    {
        if badges[i].id == *id {
            assert(views(badges@)[i as int].id == id@);
            return true;
        }
        i = i + 1;
    }
    false
}

fn create_language_badge(
    language: &String,
    lines_of_code: u32,
    tier: BadgeTier,
    criteria: Vec<String>,
    score: u32,
    earned_at: u64,
) -> (badge: Badge)
    ensures
        badge@ == language_badge(
            language@,
            lines_of_code,
            tier,
            views(criteria@),
            score,
            earned_at,
        ),
{
    let lower = to_lowercase(language.as_str());
    let mut attributes: Vec<BadgeAttribute> = Vec::new();
    attributes.push(plain_attribute_of("Language", language.as_str()));
    attributes.push(number_attribute_of("Lines of Code", lines_of_code));
    attributes.push(plain_attribute_of("Tier", tier.get_display_name()));
    assert(views(attributes@) =~= seq![
        plain_attribute("Language"@, language@),
        number_attribute("Lines of Code"@, lines_of_code as nat),
        plain_attribute("Tier"@, tier.display_name()),
    ]);
    Badge {
        id: join2("lang_", lower.as_str()),
        name: join2(language.as_str(), " Expert"),
        description: join3("Demonstrated expertise in ", language.as_str(), " programming"),
        category: BadgeCategory::Language(language.clone()),
        tier,
        earned_at,
        criteria_met: criteria,
        score_achieved: score,
        metadata: BadgeMetadata {
            image_url: image_url_of("languages", lower.as_str()),
            animation_url: Some(animation_url_of("languages", lower.as_str())),
            attributes,
            rarity_score: tier.get_points(),
        },
    }
}

/// Awards a badge to each language of the snapshot that earns a tier and
/// whose identifier is not given yet.
pub fn generate_language_badges(analysis: &GitHubAnalysis, current_time: u64) -> (badges: Vec<Badge>)
    ensures
        views(badges@) == language_badges(
            analysis@.languages,
            analysis@.repositories,
            current_time,
        ),
{
    let mut badges: Vec<Badge> = Vec::new();
    let mut i: usize = 0;
    assert(analysis@.languages.take(0) =~= Seq::empty());
    assert(views(badges@) =~= Seq::empty());
    while i < analysis.languages.len()
        invariant
            i <= analysis.languages.len(),
            views(badges@) == language_badges(
                analysis@.languages.take(i as int),
                analysis@.repositories,
                current_time,
            ),
        decreases analysis.languages.len() - i,
    {
        let language: &String = &analysis.languages[i].0;
        let lines_of_code: u32 = analysis.languages[i].1;
        let ghost before = views(badges@);
        let ghost listed = analysis@.languages;
        proof {
            assert(listed.take(i + 1).drop_last() =~= listed.take(i as int));
            assert(listed.take(i + 1).last() == (language@, lines_of_code));
        }
        let repositories = analysis.repositories.as_slice();
        assert(views(repositories@) =~= analysis@.repositories);
        let (tier, criteria_met, score) = determine_language_tier(
            lines_of_code,
            repositories,
            language.as_str(),
        );
        match tier {
            Some(badge_tier) => {
                let badge = create_language_badge(
                    language,
                    lines_of_code,
                    badge_tier,
                    criteria_met,
                    score,
                    current_time,
                );
                if !has_badge(&badges, &badge.id) {
                    badges.push(badge);
                    assert(views(badges@) =~= before + seq![badge@]);
                }
            },
            None => {
                assert(views(badges@) =~= before + Seq::empty());
            },
        }
        i = i + 1;
    }
    assert(analysis@.languages.take(i as int) =~= analysis@.languages);
    badges
}

/// How many of the repositories are public and not forks.
pub open spec fn own_public_repos(repos: Seq<RepositoryView>) -> nat
    decreases repos.len(),
{
    if repos.len() == 0 {
        0
    } else {
        own_public_repos(repos.drop_last()) + if !repos.last().is_private
            && !repos.last().is_fork {
            1nat
        } else {
            0nat
        }
    }
}

/// The open-source score of a snapshot: five points for each public
/// repository that is no fork, two for each fork received and one for each
/// star received, kept to 32 bits.
pub open spec fn open_source_score(a: GitHubAnalysisView) -> u32 {
    ((own_public_repos(a.repositories) * 5 + a.total_forks_received * 2
        + a.total_stars_received) % 0x1_0000_0000) as u32
}

/// Computes the open-source score of a snapshot.
pub fn calculate_open_source_score(analysis: &GitHubAnalysis) -> (score: u32)
    ensures
        score == open_source_score(analysis@),
{
    let mut public_repos: usize = 0;
    let mut i: usize = 0;
    while i < analysis.repositories.len()
        invariant
            i <= analysis.repositories.len(),
            public_repos <= i,
            public_repos == own_public_repos(analysis@.repositories.take(i as int)),
        decreases analysis.repositories.len() - i,
    {
        proof {
            let all = analysis@.repositories;
            assert(all.take(i + 1).drop_last() =~= all.take(i as int));
            assert(all.take(i + 1).last() == analysis.repositories@[i as int]@);
        }
        if !analysis.repositories[i].is_private && !analysis.repositories[i].is_fork {
            public_repos = public_repos + 1;
        }
        i = i + 1;
    }
    assert(analysis@.repositories.take(i as int) =~= analysis@.repositories);
    let total: u128 = (public_repos as u128) * 5 + (analysis.total_forks_received as u128) * 2 + (
    analysis.total_stars_received as u128);
    (total % 0x1_0000_0000) as u32
}

/// What a contribution score earns: one badge with the given texts in the
/// given kind of the contribution category, or nothing.
pub open spec fn contribution_award(
    score: u32,
    category: Seq<char>,
    id: Seq<char>,
    name: Seq<char>,
    description: Seq<char>,
    kind: Seq<char>,
    earned_at: u64,
) -> Seq<BadgeView> {
    match contribution_tier(score as nat) {
        Some(tier) => seq![
            contribution_badge(
                id,
                name,
                description,
                BadgeCategoryView::Contribution(kind),
                tier,
                seq![contribution_criterion(tier, score as nat, category)],
                score,
                earned_at,
            ),
        ],
        None => seq![],
    }
}

/// The contribution badges of a snapshot: open source, community,
/// consistency.
pub open spec fn contribution_badges(a: GitHubAnalysisView, earned_at: u64) -> Seq<BadgeView> {
    contribution_award(
        open_source_score(a),
        "open_source"@,
        "open_source_contributor"@,
        "Open Source Contributor"@,
        "Active contributor to open source projects"@,
        "OpenSource"@,
        earned_at,
    ) + contribution_award(
        a.community_engagement_score,
        "community"@,
        "community_builder"@,
        "Community Builder"@,
        "Building and engaging with the developer community"@,
        "Community"@,
        earned_at,
    ) + contribution_award(
        a.commit_frequency_score,
        "consistency"@,
        "consistent_contributor"@,
        "Consistent Contributor"@,
        "Maintaining consistent contribution patterns"@,
        "Consistency"@,
        earned_at,
    )
}

fn award_contribution(
    badges: &mut Vec<Badge>,
    score: u32,
    category: &str,
    id: &str,
    name: &str,
    description: &str,
    kind: &str,
    earned_at: u64,
)
    ensures
        views(final(badges)@) == views(old(badges)@) + contribution_award(
            score,
            category@,
            id@,
            name@,
            description@,
            kind@,
            earned_at,
        ),
{
    let ghost before = views(badges@);
    match determine_contribution_tier(score, category) {
        Some((tier, criteria)) => {
            let badge = create_contribution_badge(
                id,
                name,
                description,
                BadgeCategory::Contribution(String::from_str(kind)),
                tier,
                criteria,
                score,
                earned_at,
            );
            badges.push(badge);
            assert(views(badges@) =~= before + seq![badge@]);
        },
        None => {
            assert(views(badges@) =~= before + Seq::empty());
        },
    }
}

/// Awards the contribution badges that the snapshot earns.
pub fn generate_contribution_badges(analysis: &GitHubAnalysis, current_time: u64) -> (badges: Vec<
    Badge,
>)
    ensures
        views(badges@) == contribution_badges(analysis@, current_time),
{
    let mut badges: Vec<Badge> = Vec::new();
    assert(views(badges@) =~= Seq::empty());
    let open_source_score = calculate_open_source_score(analysis);
    award_contribution(
        &mut badges,
        open_source_score,
        "open_source",
        "open_source_contributor",
        "Open Source Contributor",
        "Active contributor to open source projects",
        "OpenSource",
        current_time,
    );
    award_contribution(
        &mut badges,
        analysis.community_engagement_score,
        "community",
        "community_builder",
        "Community Builder",
        "Building and engaging with the developer community",
        "Community",
        current_time,
    );
    award_contribution(
        &mut badges,
        analysis.commit_frequency_score,
        "consistency",
        "consistent_contributor",
        "Consistent Contributor",
        "Maintaining consistent contribution patterns",
        "Consistency",
        current_time,
    );
    assert(views(badges@) =~= contribution_badges(analysis@, current_time));
    badges
}

/// What a number of repositories earns.
pub open spec fn repository_award(repo_count: u32, earned_at: u64) -> Seq<BadgeView> {
    match repository_tier(repo_count as nat) {
        Some(tier) => seq![
            achievement_badge(
                "repository_creator"@,
                "Repository Creator"@,
                "Creating and maintaining multiple repositories"@,
                tier,
                seq![repository_criterion(tier, repo_count as nat)],
                repo_count,
                earned_at,
            ),
        ],
        None => seq![],
    }
}

/// What a number of commits earns.
pub open spec fn commit_award(commit_count: u32, earned_at: u64) -> Seq<BadgeView> {
    match commit_tier(commit_count as nat) {
        Some(tier) => seq![
            achievement_badge(
                "commit_master"@,
                "Commit Master"@,
                "Accumulating significant commit history"@,
                tier,
                seq![commit_criterion(tier, commit_count as nat)],
                commit_count,
                earned_at,
            ),
        ],
        None => seq![],
    }
}

/// What a number of stars received earns.
pub open spec fn star_award(star_count: u32, earned_at: u64) -> Seq<BadgeView> {
    match star_tier(star_count as nat) {
        Some(tier) => seq![
            achievement_badge(
                "star_collector"@,
                "Star Collector"@,
                "Creating popular and useful projects"@,
                tier,
                seq![star_criterion(tier, star_count as nat)],
                star_count,
                earned_at,
            ),
        ],
        None => seq![],
    }
}

/// What a number of contributions in the current year earns.
pub open spec fn streak_award(contributions: u32, earned_at: u64) -> Seq<BadgeView> {
    match streak_tier(contributions as nat) {
        Some(tier) => seq![
            achievement_badge(
                "coding_streak"@,
                "Coding Streak"@,
                "Maintaining active coding contributions"@,
                tier,
                seq![streak_criterion(tier, contributions as nat)],
                contributions,
                earned_at,
            ),
        ],
        None => seq![],
    }
}

/// The achievement badges of a snapshot: repositories, commits, stars,
/// streak.
pub open spec fn achievement_badges(a: GitHubAnalysisView, earned_at: u64) -> Seq<BadgeView> {
    repository_award(a.total_repos, earned_at) + commit_award(a.total_commits, earned_at)
        + star_award(a.total_stars_received, earned_at) + streak_award(
        a.contributions_this_year,
        earned_at,
    )
}

/// The badge, if any, that a classifier's answer turns into.
pub open spec fn classified_award(
    classified: Option<(BadgeTier, Vec<String>, u32)>,
    id: Seq<char>,
    name: Seq<char>,
    description: Seq<char>,
    earned_at: u64,
) -> Seq<BadgeView> {
    match classified {
        Some((tier, criteria, score)) => seq![
            achievement_badge(id, name, description, tier, views(criteria@), score, earned_at),
        ],
        None => seq![],
    }
}

fn award_achievement(
    badges: &mut Vec<Badge>,
    classified: Option<(BadgeTier, Vec<String>, u32)>,
    id: &str,
    name: &str,
    description: &str,
    earned_at: u64,
)
    ensures
        views(final(badges)@) == views(old(badges)@) + classified_award(
            classified,
            id@,
            name@,
            description@,
            earned_at,
        ),
{
    let ghost before = views(badges@);
    match classified {
        Some((tier, criteria, score)) => {
            let badge = create_achievement_badge(
                id,
                name,
                description,
                tier,
                criteria,
                score,
                earned_at,
            );
            badges.push(badge);
            assert(views(badges@) =~= before + seq![badge@]);
        },
        None => {
            assert(views(badges@) =~= before + Seq::empty());
        },
    }
}

/// Awards the achievement badges that the snapshot earns.
pub fn generate_achievement_badges(analysis: &GitHubAnalysis, current_time: u64) -> (badges: Vec<
    Badge,
>)
    ensures
        views(badges@) == achievement_badges(analysis@, current_time),
{
    let mut badges: Vec<Badge> = Vec::new();
    assert(views(badges@) =~= Seq::empty());
    award_achievement(
        &mut badges,
        determine_repository_achievement(analysis.total_repos),
        "repository_creator",
        "Repository Creator",
        "Creating and maintaining multiple repositories",
        current_time,
    );
    award_achievement(
        &mut badges,
        determine_commit_achievement(analysis.total_commits),
        "commit_master",
        "Commit Master",
        "Accumulating significant commit history",
        current_time,
    );
    award_achievement(
        &mut badges,
        determine_star_achievement(analysis.total_stars_received),
        "star_collector",
        "Star Collector",
        "Creating popular and useful projects",
        current_time,
    );
    award_achievement(
        &mut badges,
        determine_streak_achievement(analysis.contributions_this_year),
        "coding_streak",
        "Coding Streak",
        "Maintaining active coding contributions",
        current_time,
    );
    assert(views(badges@) =~= achievement_badges(analysis@, current_time));
    badges
}

/// The early-adopter badge, for an account older than five years of 365
/// days. Its score is the age in whole years.
pub open spec fn early_adopter_award(account_age_days: u32, earned_at: u64) -> Seq<BadgeView> {
    if account_age_days > 1825 {
        seq![
            BadgeView {
                id: "early_adopter"@,
                name: "Early Adopter"@,
                description: "Been on GitHub for over 5 years"@,
                category: BadgeCategoryView::Special("EarlyAdopter"@),
                tier: BadgeTier::Gold2,
                earned_at,
                criteria_met: seq!["Account age > 5 years"@],
                score_achieved: (account_age_days / 365) as u32,
                metadata: special_badge_metadata(
                    "early_adopter"@,
                    BadgeTier::Gold2,
                    (account_age_days / 365) as u32,
                ),
            },
        ]
    } else {
        seq![]
    }
}

/// The tier that a number of distinct languages earns.
pub open spec fn polyglot_tier(languages: nat) -> Option<BadgeTier> {
    if languages < 5 {
        None
    } else if languages < 8 {
        Some(BadgeTier::Bronze3)
    } else if languages < 13 {
        Some(BadgeTier::Silver2)
    } else {
        Some(BadgeTier::Gold1)
    }
}

/// The score recorded for a number of languages: the number itself, kept to
/// 32 bits.
pub open spec fn polyglot_score(languages: nat) -> u32 {
    (languages % 0x1_0000_0000) as u32
}

/// The polyglot badge, for five languages or more.
pub open spec fn polyglot_award(languages: nat, earned_at: u64) -> Seq<BadgeView> {
    match polyglot_tier(languages) {
        Some(tier) => seq![
            BadgeView {
                id: "polyglot"@,
                name: "Polyglot"@,
                description: "Codes in "@ + decimal_text(languages) + " different languages"@,
                category: BadgeCategoryView::Special("Polyglot"@),
                tier,
                earned_at,
                criteria_met: seq![
                    "Uses "@ + decimal_text(languages) + " programming languages"@,
                ],
                score_achieved: polyglot_score(languages),
                metadata: special_badge_metadata("polyglot"@, tier, polyglot_score(languages)),
            },
        ],
        None => seq![],
    }
}

/// The innovator badge, for a code quality score of 80 or more.
pub open spec fn innovation_award(code_quality_score: u32, earned_at: u64) -> Seq<BadgeView> {
    if code_quality_score >= 80 {
        seq![
            BadgeView {
                id: "innovator"@,
                name: "Innovator"@,
                description: "Consistently produces high-quality code"@,
                category: BadgeCategoryView::Special("Innovation"@),
                tier: BadgeTier::Gold3,
                earned_at,
                criteria_met: seq!["Code quality score > 80"@],
                score_achieved: code_quality_score,
                metadata: special_badge_metadata(
                    "innovator"@,
                    BadgeTier::Gold3,
                    code_quality_score,
                ),
            },
        ]
    } else {
        seq![]
    }
}

/// The special badges of a snapshot: early adopter, polyglot, innovator.
pub open spec fn special_badges(a: GitHubAnalysisView, earned_at: u64) -> Seq<BadgeView> {
    early_adopter_award(a.account_age_days, earned_at) + polyglot_award(
        a.languages.len(),
        earned_at,
    ) + innovation_award(a.code_quality_score, earned_at)
}

/// More languages never earn a lower polyglot tier.
pub proof fn lemma_polyglot_tier_monotonic(a: nat, b: nat)
    requires
        a <= b,
        polyglot_tier(a) is Some,
    ensures
        polyglot_tier(b) is Some,
        polyglot_tier(a)->0.rank() <= polyglot_tier(b)->0.rank(),
        polyglot_tier(a)->0.points() <= polyglot_tier(b)->0.points(),
{
}

fn polyglot_band(languages: usize) -> (tier: Option<BadgeTier>)
    ensures
        tier == polyglot_tier(languages as nat),
{
    if languages < 5 {
        None
    } else if languages < 8 {
        Some(BadgeTier::Bronze3)
    } else if languages < 13 {
        Some(BadgeTier::Silver2)
    } else {
        Some(BadgeTier::Gold1)
    }
}

/// Awards the special badges that the snapshot earns.
pub fn generate_special_badges(analysis: &GitHubAnalysis, current_time: u64) -> (badges: Vec<Badge>)
    ensures
        views(badges@) == special_badges(analysis@, current_time),
{
    let mut badges: Vec<Badge> = Vec::new();
    assert(views(badges@) =~= Seq::empty());

    if analysis.account_age_days > 1825 {
        let years: u32 = analysis.account_age_days / 365;
        let badge = Badge {
            id: String::from_str("early_adopter"),
            name: String::from_str("Early Adopter"),
            description: String::from_str("Been on GitHub for over 5 years"),
            category: BadgeCategory::Special(String::from_str("EarlyAdopter")),
            tier: BadgeTier::Gold2,
            earned_at: current_time,
            criteria_met: one_line("Account age > 5 years"),
            score_achieved: years,
            metadata: create_special_badge_metadata("early_adopter", BadgeTier::Gold2, years),
        };
        badges.push(badge);
        assert(views(badges@) =~= seq![badge@]);
    }
    assert(views(badges@) =~= early_adopter_award(analysis.account_age_days, current_time));

    let ghost before = views(badges@);
    let languages: usize = analysis.languages.len();
    match polyglot_band(languages) {
        Some(tier) => {
            let count = decimal_string(languages as u64);
            let score: u32 = ((languages as u64) % 0x1_0000_0000) as u32;
            let mut criteria: Vec<String> = Vec::new();
            criteria.push(join3("Uses ", count.as_str(), " programming languages"));
            assert(views(criteria@) =~= seq![
                "Uses "@ + decimal_text(languages as nat) + " programming languages"@,
            ]);
            let badge = Badge {
                id: String::from_str("polyglot"),
                name: String::from_str("Polyglot"),
                description: join3("Codes in ", count.as_str(), " different languages"),
                category: BadgeCategory::Special(String::from_str("Polyglot")),
                tier,
                earned_at: current_time,
                criteria_met: criteria,
                score_achieved: score,
                metadata: create_special_badge_metadata("polyglot", tier, score),
            };
            badges.push(badge);
            assert(views(badges@) =~= before + seq![badge@]);
        },
        None => {
            assert(views(badges@) =~= before + Seq::empty());
        },
    }
    assert(views(badges@) =~= before + polyglot_award(analysis@.languages.len(), current_time));

    let ghost before = views(badges@);
    if analysis.code_quality_score >= 80 {
        let badge = Badge {
            id: String::from_str("innovator"),
            name: String::from_str("Innovator"),
            description: String::from_str("Consistently produces high-quality code"),
            category: BadgeCategory::Special(String::from_str("Innovation")),
            tier: BadgeTier::Gold3,
            earned_at: current_time,
            criteria_met: one_line("Code quality score > 80"),
            score_achieved: analysis.code_quality_score,
            metadata: create_special_badge_metadata(
                "innovator",
                BadgeTier::Gold3,
                analysis.code_quality_score,
            ),
        };
        badges.push(badge);
        assert(views(badges@) =~= before + seq![badge@]);
    } else {
        assert(views(badges@) =~= before + Seq::empty());
    }
    badges
}

/// The badges of a snapshot: language badges, then contribution badges, then
/// achievement badges, then special badges, all earned at `earned_at`.
pub open spec fn all_badges(a: GitHubAnalysisView, earned_at: u64) -> Seq<BadgeView> {
    language_badges(a.languages, a.repositories, earned_at) + contribution_badges(a, earned_at)
        + achievement_badges(a, earned_at) + special_badges(a, earned_at)
}

/// Derives the badges that a snapshot earns. The result depends on nothing
/// but the snapshot and the timestamp, which every badge carries, and no
/// two of its badges have the same identifier.
pub fn generate_badges_from_analysis(analysis: &GitHubAnalysis, current_time: u64) -> (badges: Vec<
    Badge,
>)
    ensures
        views(badges@) == all_badges(analysis@, current_time),
        ids_distinct(views(badges@)),
{
    proof {
        crate::ids::lemma_badge_ids_distinct(analysis@, current_time);
    }
    let mut badges = generate_language_badges(analysis, current_time);
    let mut contribution = generate_contribution_badges(analysis, current_time);
    let mut achievement = generate_achievement_badges(analysis, current_time);
    let mut special = generate_special_badges(analysis, current_time);
    let ghost languages = views(badges@);
    let ghost contributions = views(contribution@);
    let ghost achievements = views(achievement@);
    let ghost specials = views(special@);
    badges.append(&mut contribution);
    assert(views(badges@) =~= languages + contributions);
    badges.append(&mut achievement);
    assert(views(badges@) =~= languages + contributions + achievements);
    badges.append(&mut special);
    assert(views(badges@) =~= languages + contributions + achievements + specials);
    badges
}

/// Every language badge carries the timestamp of the run.
pub proof fn lemma_language_badges_timestamp(
    languages: Seq<(Seq<char>, u32)>,
    repositories: Seq<RepositoryView>,
    earned_at: u64,
)
    ensures
        forall|i: int|
            0 <= i < language_badges(languages, repositories, earned_at).len() ==> (
            #[trigger] language_badges(languages, repositories, earned_at)[i]).earned_at
                == earned_at,
    decreases languages.len(),
{
    if languages.len() > 0 {
        lemma_language_badges_timestamp(languages.drop_last(), repositories, earned_at);
    }
}

/// Every badge of a run carries the timestamp of the run.
pub proof fn lemma_badges_carry_timestamp(a: GitHubAnalysisView, earned_at: u64)
    ensures
        forall|i: int|
            0 <= i < all_badges(a, earned_at).len() ==> (#[trigger] all_badges(
                a,
                earned_at,
            )[i]).earned_at == earned_at,
{
    lemma_language_badges_timestamp(a.languages, a.repositories, earned_at);
}

/// A run awards at most one badge per language and ten more.
pub proof fn lemma_badge_count(a: GitHubAnalysisView, earned_at: u64)
    ensures
        all_badges(a, earned_at).len() <= a.languages.len() + 10,
{
    lemma_language_badge_count(a.languages, a.repositories, earned_at);
}

/// At most one language badge is awarded per language.
pub proof fn lemma_language_badge_count(
    languages: Seq<(Seq<char>, u32)>,
    repositories: Seq<RepositoryView>,
    earned_at: u64,
)
    ensures
        language_badges(languages, repositories, earned_at).len() <= languages.len(),
    decreases languages.len(),
{
    if languages.len() > 0 {
        lemma_language_badge_count(languages.drop_last(), repositories, earned_at);
    }
}

/// Two runs on equal snapshots and equal timestamps return equal badge
/// lists, badge for badge and in the same order: whatever
/// `generate_badges_from_analysis` returns for the one, it returns for the
/// other.
pub proof fn lemma_badges_deterministic(
    first: GitHubAnalysis,
    second: GitHubAnalysis,
    first_time: u64,
    second_time: u64,
    first_badges: Vec<Badge>,
    second_badges: Vec<Badge>,
)
    requires
        first@ == second@,
        first_time == second_time,
        views(first_badges@) == all_badges(first@, first_time),
        views(second_badges@) == all_badges(second@, second_time),
    ensures
        views(first_badges@) == views(second_badges@),
{
}

/// A snapshot without languages and repositories whose metrics are all zero
/// earns nothing, at any time.
pub proof fn lemma_empty_snapshot_earns_nothing(a: GitHubAnalysisView, earned_at: u64)
    requires
        a.languages.len() == 0,
        a.repositories.len() == 0,
        a.total_repos == 0,
        a.total_commits == 0,
        a.total_stars_received == 0,
        a.total_forks_received == 0,
        a.contributions_this_year == 0,
        a.account_age_days == 0,
        a.commit_frequency_score == 0,
        a.code_quality_score == 0,
        a.community_engagement_score == 0,
    ensures
        all_badges(a, earned_at).len() == 0,
{
}

} // verus!
