//! Badges awarded on top of the engine's own, from the assessment of a
//! profile by a text-generation service.
//!
//! The assessment gives scores as fractions. Here a score is held by what
//! the rules read of it: its whole part, and its two renderings as text.

use crate::badges::{
    all_badges, animation_url, generate_badges_from_analysis, has_badge, image_url,
    plain_attribute,
};
use crate::models::{
    holds_id, ids_distinct, views, Badge, BadgeAttribute, BadgeAttributeView, BadgeCategory,
    BadgeCategoryView, BadgeMetadata, BadgeMetadataView, BadgeTier, BadgeView, GitHubAnalysis,
    GitHubAnalysisView,
};
use crate::text::{
    contains_text, join2, join3, lowercase_text, occurs_in, replace_spaces, to_lowercase,
    underscored,
};
use vstd::prelude::*;
use vstd::string::*;
use vstd::utf8::encode_utf8;

verus! {

/// A score between 0 and 100, as far as the rules read it.
#[derive(Clone, Debug, PartialEq, Eq)]
pub struct Score {
    /// The score cut off toward zero; zero for a score that is no number.
    pub whole: u32,
    /// The score as text with one decimal place.
    pub rounded: String,
    /// The score as text in full.
    pub text: String,
}

/// A score with its renderings as texts.
pub struct ScoreView {
    pub whole: u32,
    pub rounded: Seq<char>,
    pub text: Seq<char>,
}

impl View for Score {
    type V = ScoreView;

    open spec fn view(&self) -> ScoreView {
        ScoreView { whole: self.whole, rounded: self.rounded@, text: self.text@ }
    }
}

/// The assessment of a profile.
#[derive(Clone, Debug, PartialEq, Eq)]
pub struct LLMAnalysis {
    pub code_quality_score: Score,
    pub contribution_consistency: Score,
    pub community_impact: Score,
    pub technical_breadth: Score,
    pub innovation_score: Score,
    pub expertise_areas: Vec<String>,
    pub recommended_badges: Vec<String>,
    pub analysis_summary: String,
    pub strengths: Vec<String>,
    pub improvement_areas: Vec<String>,
}

/// The presentation of a badge that rests on the assessment: the name of
/// the assessing service, then one more attribute.
pub open spec fn assessed_attributes(second: BadgeAttributeView) -> Seq<BadgeAttributeView> {
    seq![plain_attribute("AI Analysis"@, "Azure OpenAI"@), second]
}

/// The badge for code whose quality the assessment scores at 85 or more.
pub open spec fn quality_award(score: ScoreView, earned_at: u64) -> Seq<BadgeView> {
    if score.whole >= 85 {
        seq![
            BadgeView {
                id: "ai_quality_master"@,
                name: "AI Quality Master"@,
                description: "Code quality verified by AI analysis"@,
                category: BadgeCategoryView::Special("AI-Verified"@),
                tier: BadgeTier::Gold3,
                earned_at,
                criteria_met: seq!["AI Quality Score: "@ + score.rounded],
                score_achieved: score.whole,
                metadata: BadgeMetadataView {
                    image_url: image_url("special"@, "ai_quality_master"@),
                    animation_url: Some(animation_url("special"@, "ai_quality_master"@)),
                    attributes: assessed_attributes(
                        BadgeAttributeView {
                            trait_type: "Quality Score"@,
                            value: score.text,
                            display_type: Some("number"@),
                        },
                    ),
                    rarity_score: 500,
                },
            },
        ]
    } else {
        seq![]
    }
}

/// The badge for a profile whose innovation the assessment scores at 80 or
/// more.
pub open spec fn innovator_award(score: ScoreView, earned_at: u64) -> Seq<BadgeView> {
    if score.whole >= 80 {
        seq![
            BadgeView {
                id: "ai_innovator"@,
                name: "AI-Verified Innovator"@,
                description: "Innovation patterns recognized by AI"@,
                category: BadgeCategoryView::Special("Innovation"@),
                tier: BadgeTier::Gold2,
                earned_at,
                criteria_met: seq!["AI Innovation Score: "@ + score.rounded],
                score_achieved: score.whole,
                metadata: BadgeMetadataView {
                    image_url: image_url("special"@, "ai_innovator"@),
                    animation_url: Some(animation_url("special"@, "ai_innovator"@)),
                    attributes: assessed_attributes(
                        BadgeAttributeView {
                            trait_type: "Innovation Score"@,
                            value: score.text,
                            display_type: Some("number"@),
                        },
                    ),
                    rarity_score: 400,
                },
            },
        ]
    } else {
        seq![]
    }
}

/// The file stem of an area of expertise: its name in lower case, with
/// underscores for spaces.
pub open spec fn expertise_stem(area: Seq<char>) -> Seq<char> {
    underscored(lowercase_text(area))
}

/// The badge for an area of expertise that the assessment names.
pub open spec fn expertise_badge(area: Seq<char>, earned_at: u64) -> BadgeView {
    BadgeView {
        id: "ai_expert_"@ + expertise_stem(area),
        name: "AI-Verified "@ + area + " Expert"@,
        description: "Expertise in "@ + area + " verified by AI analysis"@,
        category: BadgeCategoryView::Language(area),
        tier: BadgeTier::Silver3,
        earned_at,
        criteria_met: seq!["AI-identified expertise in "@ + area],
        score_achieved: 100,
        metadata: BadgeMetadataView {
            image_url: image_url("ai_expertise"@, expertise_stem(area)),
            animation_url: None,
            attributes: assessed_attributes(plain_attribute("Expertise Area"@, area)),
            rarity_score: 200,
        },
    }
}

/// Whether the name of one of the badges contains the text, compared byte
/// by byte in UTF-8.
pub open spec fn some_name_contains(badges: Seq<BadgeView>, text: Seq<char>) -> bool {
    exists|i: int|
        0 <= i < badges.len() && occurs_in(encode_utf8(text), encode_utf8((#[trigger] badges[i]).name))
}

/// The badges with one more for each area of expertise, in the order of the
/// areas. An area earns no badge where the name of a badge that is already
/// there contains the area's name, nor where its identifier is already
/// given.
pub open spec fn with_expertise(badges: Seq<BadgeView>, areas: Seq<Seq<char>>, earned_at: u64) -> Seq<
    BadgeView,
>
    decreases areas.len(),
{
    if areas.len() == 0 {
        badges
    } else {
        let before = with_expertise(badges, areas.drop_last(), earned_at);
        if some_name_contains(before, areas.last()) || holds_id(
            before,
            expertise_badge(areas.last(), earned_at).id,
        ) {
            before
        } else {
            before.push(expertise_badge(areas.last(), earned_at))
        }
    }
}

/// The badges of a snapshot with an assessment: the badges of the snapshot
/// alone, then the badges for quality and innovation, then those for the
/// areas of expertise.
pub open spec fn enhanced_badges(
    a: GitHubAnalysisView,
    quality: ScoreView,
    innovation: ScoreView,
    areas: Seq<Seq<char>>,
    earned_at: u64,
) -> Seq<BadgeView> {
    with_expertise(
        all_badges(a, earned_at) + quality_award(quality, earned_at) + innovator_award(
            innovation,
            earned_at,
        ),
        areas,
        earned_at,
    )
}

fn assessed_attributes_of(trait_type: &str, value: &str, display_type: Option<&str>) -> (attributes:
    Vec<BadgeAttribute>)
    ensures
        views(attributes@) == assessed_attributes(
            BadgeAttributeView {
                trait_type: trait_type@,
                value: value@,
                display_type: match display_type {
                    Some(d) => Some(d@),
                    None => None,
                },
            },
        ),
{
    let mut attributes: Vec<BadgeAttribute> = Vec::new();
    attributes.push(
        BadgeAttribute {
            trait_type: String::from_str("AI Analysis"),
            value: String::from_str("Azure OpenAI"),
            display_type: None,
        },
    );
    attributes.push(
        BadgeAttribute {
            trait_type: String::from_str(trait_type),
            value: String::from_str(value),
            display_type: match display_type {
                Some(d) => Some(String::from_str(d)),
                None => None,
            },
        },
    );
    assert(views(attributes@) =~= assessed_attributes(
        BadgeAttributeView {
            trait_type: trait_type@,
            value: value@,
            display_type: match display_type {
                Some(d) => Some(d@),
                None => None,
            },
        },
    ));
    attributes
}

fn scored_badge(
    id: &str,
    name: &str,
    description: &str,
    kind: &str,
    tier: BadgeTier,
    criterion: &str,
    score: &Score,
    trait_type: &str,
    rarity: u32,
    earned_at: u64,
) -> (badge: Badge)
    ensures
        badge@ == (BadgeView {
            id: id@,
            name: name@,
            description: description@,
            category: BadgeCategoryView::Special(kind@),
            tier,
            earned_at,
            criteria_met: seq![criterion@ + score.rounded@],
            score_achieved: score.whole,
            metadata: BadgeMetadataView {
                image_url: image_url("special"@, id@),
                animation_url: Some(animation_url("special"@, id@)),
                attributes: assessed_attributes(
                    BadgeAttributeView {
                        trait_type: trait_type@,
                        value: score.text@,
                        display_type: Some("number"@),
                    },
                ),
                rarity_score: rarity,
            },
        }),
{
    let mut criteria: Vec<String> = Vec::new();
    criteria.push(join2(criterion, score.rounded.as_str()));
    assert(views(criteria@) =~= seq![criterion@ + score.rounded@]);
    let mut image = join3("/badges/", "special", "/");
    image.append(id);
    image.append(".svg");
    let mut animation = join3("/badges/", "special", "/");
    animation.append(id);
    animation.append("_animated.gif");
    Badge {
        id: String::from_str(id),
        name: String::from_str(name),
        description: String::from_str(description),
        category: BadgeCategory::Special(String::from_str(kind)),
        tier,
        earned_at,
        criteria_met: criteria,
        score_achieved: score.whole,
        metadata: BadgeMetadata {
            image_url: image,
            animation_url: Some(animation),
            attributes: assessed_attributes_of(trait_type, score.text.as_str(), Some("number")),
            rarity_score: rarity,
        },
    }
}

fn create_expertise_badge(area: &String, earned_at: u64) -> (badge: Badge)
    ensures
        badge@ == expertise_badge(area@, earned_at),
{
    let lower = to_lowercase(area.as_str());
    let stem = replace_spaces(lower.as_str());
    let mut criteria: Vec<String> = Vec::new();
    criteria.push(join2("AI-identified expertise in ", area.as_str()));
    assert(views(criteria@) =~= seq!["AI-identified expertise in "@ + area@]);
    let mut image = join3("/badges/", "ai_expertise", "/");
    image.append(stem.as_str());
    image.append(".svg");
    Badge {
        id: join2("ai_expert_", stem.as_str()),
        name: join3("AI-Verified ", area.as_str(), " Expert"),
        description: join3("Expertise in ", area.as_str(), " verified by AI analysis"),
        category: BadgeCategory::Language(area.clone()),
        tier: BadgeTier::Silver3,
        earned_at,
        criteria_met: criteria,
        score_achieved: 100,
        metadata: BadgeMetadata {
            image_url: image,
            animation_url: None,
            attributes: assessed_attributes_of("Expertise Area", area.as_str(), None),
            rarity_score: 200,
        },
    }
}

fn any_name_contains(badges: &Vec<Badge>, text: &str) -> (r: bool)
    ensures
        r == some_name_contains(views(badges@), text@),
{
    let mut i: usize = 0;
    while i < badges.len()
        invariant
            i <= badges@.len(),
            forall|k: int|
                0 <= k < i ==> !occurs_in(
                    encode_utf8(text@),
                    encode_utf8((#[trigger] views(badges@)[k]).name),
                ),
        decreases badges.len() - i,
    {
        if contains_text(badges[i].name.as_str(), text) {
            assert(occurs_in(encode_utf8(text@), encode_utf8(views(badges@)[i as int].name)));
            return true;
        }
        i = i + 1;
    }
    false
}

/// Derives the badges that a snapshot earns together with its assessment.
/// No two of them have the same identifier.
pub fn generate_badges_from_enhanced_analysis(
    github_analysis: &GitHubAnalysis,
    ai_analysis: &LLMAnalysis,
    current_time: u64,
) -> (badges: Vec<Badge>)
    ensures
        views(badges@) == enhanced_badges(
            github_analysis@,
            ai_analysis.code_quality_score@,
            ai_analysis.innovation_score@,
            views(ai_analysis.expertise_areas@),
            current_time,
        ),
        ids_distinct(views(badges@)),
{
    proof {
        crate::ids::lemma_enhanced_ids_distinct(
            github_analysis@,
            ai_analysis.code_quality_score@,
            ai_analysis.innovation_score@,
            views(ai_analysis.expertise_areas@),
            current_time,
        );
    }
    let mut badges = generate_badges_from_analysis(github_analysis, current_time);
    let ghost own = views(badges@);

    if ai_analysis.code_quality_score.whole >= 85 {
        let badge = scored_badge(
            "ai_quality_master",
            "AI Quality Master",
            "Code quality verified by AI analysis",
            "AI-Verified",
            BadgeTier::Gold3,
            "AI Quality Score: ",
            &ai_analysis.code_quality_score,
            "Quality Score",
            500,
            current_time,
        );
        badges.push(badge);
        assert(views(badges@) =~= own + seq![badge@]);
    } else {
        assert(views(badges@) =~= own + Seq::empty());
    }
    let ghost scored = views(badges@);
    assert(scored == own + quality_award(ai_analysis.code_quality_score@, current_time));

    if ai_analysis.innovation_score.whole >= 80 {
        let badge = scored_badge(
            "ai_innovator",
            "AI-Verified Innovator",
            "Innovation patterns recognized by AI",
            "Innovation",
            BadgeTier::Gold2,
            "AI Innovation Score: ",
            &ai_analysis.innovation_score,
            "Innovation Score",
            400,
            current_time,
        );
        badges.push(badge);
        assert(views(badges@) =~= scored + seq![badge@]);
    } else {
        assert(views(badges@) =~= scored + Seq::empty());
    }
    let ghost base = views(badges@);
    let ghost areas = views(ai_analysis.expertise_areas@);
    assert(areas.take(0) =~= Seq::empty());

    let mut i: usize = 0;
    while i < ai_analysis.expertise_areas.len()
        invariant
            i <= ai_analysis.expertise_areas@.len(),
            areas == views(ai_analysis.expertise_areas@),
            views(badges@) == with_expertise(base, areas.take(i as int), current_time),
        decreases ai_analysis.expertise_areas.len() - i,
    {
        let ghost before = views(badges@);
        let area: &String = &ai_analysis.expertise_areas[i];
        proof {
            assert(areas.take(i + 1).drop_last() =~= areas.take(i as int));
            assert(areas.take(i + 1).last() == area@);
        }
        if !any_name_contains(&badges, area.as_str()) {
            let badge = create_expertise_badge(area, current_time);
            if !has_badge(&badges, &badge.id) {
                badges.push(badge);
                assert(views(badges@) =~= before.push(badge@));
            }
        }
        i = i + 1;
    }
    assert(areas.take(i as int) =~= areas);
    badges
}

} // verus!
