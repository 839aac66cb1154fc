//! The text-generation endpoint: its configuration, the request to it, and
//! what is read from its answer. The scores of an answer are fractions and
//! are not read here; the answer's JSON document is handed back for them.

use crate::json::{
    array_items, error_text, item_of, items_of, json_document, json_error_text, json_item,
    json_member, json_text, member_of, member_text, parse_document, text_member, text_of_value,
};
use crate::models::{header_views, text_of, views, HttpRequest, HttpRequestView};
use crate::text::join2;
use crate::requests::OutgoingRequest;
use crate::text::{contains_text, occurs_in};
use vstd::prelude::*;
use vstd::string::*;
use vstd::utf8::encode_utf8;

verus! {

/// Where the text-generation endpoint is and how to address it.
#[derive(Clone, Debug, PartialEq, Eq)]
pub struct AzureOpenAIConfig {
    pub api_key: Option<String>,
    pub endpoint: String,
    pub deployment: String,
    pub api_version: String,
}

impl AzureOpenAIConfig {
    /// The configuration before anything is set: no key, no endpoint, and
    /// the default deployment and version.
    pub fn new() -> (config: Self)
        ensures
            config.api_key is None,
            config.endpoint@ == Seq::<char>::empty(),
            config.deployment@ == "gpt-35-turbo"@,
            config.api_version@ == "2025-01-01-preview"@,
    {
        AzureOpenAIConfig {
            api_key: None,
            endpoint: String::new(),
            deployment: String::from_str("gpt-35-turbo"),
            api_version: String::from_str("2025-01-01-preview"),
        }
    }

    /// Whether a key is set and the endpoint is named.
    pub open spec fn configured(self) -> bool {
        self.api_key is Some && self.endpoint@.len() > 0
    }

    /// The address of the chat completion of the configured deployment.
    pub open spec fn chat_url(self) -> Seq<char> {
        self.endpoint@ + "/openai/deployments/"@ + self.deployment@
            + "/chat/completions?api-version="@ + self.api_version@
    }

    /// The request that posts `body` to the chat completion.
    pub open spec fn chat_request(self, body: Seq<u8>) -> HttpRequestView {
        HttpRequestView {
            method: "POST"@,
            url: self.chat_url(),
            headers: seq![
                ("api-key"@, self.api_key->0@),
                ("Content-Type"@, "application/json"@),
            ],
            body,
        }
    }
}

/// Stores the key and the endpoint, and the deployment and the version
/// where they are given; where they are not, those stay as they are.
pub fn set_azure_openai_config(
    config: &mut AzureOpenAIConfig,
    api_key: String,
    endpoint: String,
    deployment: Option<String>,
    api_version: Option<String>,
)
    ensures
        text_of(final(config).api_key) == Some(api_key@),
        final(config).endpoint@ == endpoint@,
        final(config).deployment@ == (match deployment {
            Some(d) => d@,
            None => old(config).deployment@,
        }),
        final(config).api_version@ == (match api_version {
            Some(v) => v@,
            None => old(config).api_version@,
        }),
{
    config.api_key = Some(api_key);
    config.endpoint = endpoint;
    match deployment {
        Some(d) => {
            config.deployment = d;
        },
        None => {},
    }
    match api_version {
        Some(v) => {
            config.api_version = v;
        },
        None => {},
    }
}

/// Whether an address names the hosted service: whether `azure` occurs in
/// it.
pub open spec fn names_azure(url: Seq<char>) -> bool {
    occurs_in(encode_utf8("azure"@), encode_utf8(url))
}

/// Stores the key, and the address as the endpoint where it names the
/// hosted service. Deployment and version stay as they are.
pub fn set_llm_config(config: &mut AzureOpenAIConfig, api_key: String, api_url: Option<String>)
    ensures
        text_of(final(config).api_key) == Some(api_key@),
        final(config).endpoint@ == (match api_url {
            Some(url) => if names_azure(url@) {
                url@
            } else {
                old(config).endpoint@
            },
            None => old(config).endpoint@,
        }),
        final(config).deployment@ == old(config).deployment@,
        final(config).api_version@ == old(config).api_version@,
{
    match api_url {
        Some(url) => {
            if contains_text(url.as_str(), "azure") {
                config.endpoint = url;
            }
        },
        None => {},
    }
    config.api_key = Some(api_key);
}

/// Whether the endpoint can be asked: a key is set and the endpoint is
/// named.
pub fn azure_is_configured(config: &AzureOpenAIConfig) -> (r: bool)
    ensures
        r == config.configured(),
{
    config.api_key.is_some() && !config.endpoint.as_str().is_empty()
}

/// Builds the request that posts `body` to the chat completion, or nothing
/// where the endpoint is not configured.
pub fn azure_chat_request(config: &AzureOpenAIConfig, body: Vec<u8>) -> (r: Option<
    OutgoingRequest,
>)
    ensures
        r is Some <==> config.configured(),
        r matches Some(out) ==> out.request@ == config.chat_request(body@)
            && out.max_response_bytes == 4096,
{
    if !azure_is_configured(config) {
        return None;
    }
    let key = match &config.api_key {
        Some(key) => key,
        None => {
            return None;
        },
    };
    let mut url = config.endpoint.clone();
    url.append("/openai/deployments/");
    url.append(config.deployment.as_str());
    url.append("/chat/completions?api-version=");
    url.append(config.api_version.as_str());
    let mut headers: Vec<(String, String)> = Vec::new();
    headers.push((String::from_str("api-key"), key.clone()));
    headers.push((String::from_str("Content-Type"), String::from_str("application/json")));
    let request = HttpRequest { method: String::from_str("POST"), url, headers, body };
    assert(header_views(request.headers@) =~= seq![
        ("api-key"@, config.api_key->0@),
        ("Content-Type"@, "application/json"@),
    ]);
    Some(OutgoingRequest { request, max_response_bytes: 4096 })
}

/// The code quality that stands for an answer whose content is no JSON
/// document.
pub const FALLBACK_CODE_QUALITY: u32 = 75;

/// The consistency that stands for such an answer.
pub const FALLBACK_CONSISTENCY: u32 = 70;

/// The community impact that stands for such an answer.
pub const FALLBACK_COMMUNITY_IMPACT: u32 = 65;

/// The technical breadth that stands for such an answer.
pub const FALLBACK_TECHNICAL_BREADTH: u32 = 80;

/// The innovation that stands for such an answer.
pub const FALLBACK_INNOVATION: u32 = 70;

/// How many characters of a content that is no JSON document are kept as the
/// summary.
pub const SUMMARY_LENGTH: usize = 200;

/// The content of an answer of the endpoint: the string `content` of the
/// `message` of the first of the `choices`.
pub open spec fn answer_content(response: serde_json::Value) -> Option<Seq<char>> {
    member_text(
        json_member(json_item(json_member(response, "choices"@), 0), "message"@),
        "content"@,
    )
}

/// Takes the content out of an answer of the endpoint.
pub fn answer_content_of(response: &serde_json::Value) -> (r: Option<String>)
    ensures
        text_of(r) == answer_content(*response),
{
    let choices = member_of(response, "choices");
    let first = item_of(&choices, 0);
    let message = member_of(&first, "message");
    text_member(&message, "content")
}

/// The strings among the items, in their order; an item that is no string is
/// left out.
pub open spec fn texts_among(items: Seq<serde_json::Value>) -> Seq<Seq<char>>
    decreases items.len(),
{
    if items.len() == 0 {
        seq![]
    } else {
        let before = texts_among(items.drop_last());
        match json_text(items.last()) {
            Some(text) => before.push(text),
            None => before,
        }
    }
}

/// The strings of the array that a document holds under a key; none where it
/// holds no array there.
pub open spec fn texts_under(document: serde_json::Value, key: Seq<char>) -> Seq<Seq<char>> {
    match array_items(json_member(document, key)) {
        Some(items) => texts_among(items),
        None => seq![],
    }
}

fn texts_under_of(document: &serde_json::Value, key: &str) -> (texts: Vec<String>)
    ensures
        views(texts@) == texts_under(*document, key@),
{
    let mut texts: Vec<String> = Vec::new();
    let member = member_of(document, key);
    match items_of(&member) {
        Some(items) => {
            let mut i: usize = 0;
            assert(items@.take(0) =~= Seq::empty());
            assert(views(texts@) =~= Seq::empty());
            while i < items.len()
                invariant
                    i <= items@.len(),
                    views(texts@) == texts_among(items@.take(i as int)),
                decreases items.len() - i,
            {
                let ghost before = views(texts@);
                proof {
                    assert(items@.take(i + 1).drop_last() =~= items@.take(i as int));
                    assert(items@.take(i + 1).last() == items@[i as int]);
                }
                match text_of_value(&items[i]) {
                    Some(text) => {
                        texts.push(text);
                        assert(views(texts@) =~= before.push(text@));
                    },
                    None => {},
                }
                i = i + 1;
            }
            assert(items@.take(i as int) =~= items@);
        },
        None => {
            assert(views(texts@) =~= Seq::empty());
        },
    }
    texts
}

/// What is read from the content of an answer, but for the scores: the
/// content as a JSON document, where it is one, from which the scores are
/// read as fractions; and the lists and the summary of the assessment.
#[derive(Clone, Debug, PartialEq)]
pub struct AssessmentAnswer {
    pub document: Option<serde_json::Value>,
    pub expertise_areas: Vec<String>,
    pub recommended_badges: Vec<String>,
    pub analysis_summary: String,
    pub strengths: Vec<String>,
    pub improvement_areas: Vec<String>,
}

/// An answer with its texts as such.
pub struct AssessmentAnswerView {
    pub document: Option<serde_json::Value>,
    pub expertise_areas: Seq<Seq<char>>,
    pub recommended_badges: Seq<Seq<char>>,
    pub analysis_summary: Seq<char>,
    pub strengths: Seq<Seq<char>>,
    pub improvement_areas: Seq<Seq<char>>,
}

impl View for AssessmentAnswer {
    type V = AssessmentAnswerView;

    open spec fn view(&self) -> AssessmentAnswerView {
        AssessmentAnswerView {
            document: self.document,
            expertise_areas: views(self.expertise_areas@),
            recommended_badges: views(self.recommended_badges@),
            analysis_summary: self.analysis_summary@,
            strengths: views(self.strengths@),
            improvement_areas: views(self.improvement_areas@),
        }
    }
}

/// The start of a text: its first `SUMMARY_LENGTH` characters, or all of it
/// where it has fewer.
pub open spec fn summary_start(content: Seq<char>) -> Seq<char> {
    if content.len() <= SUMMARY_LENGTH {
        content
    } else {
        content.subrange(0, SUMMARY_LENGTH as int)
    }
}

/// What the content of an answer says. Where it is a JSON document, the
/// lists are the strings of its arrays and the summary is its string
/// `analysis_summary`, or a standing line where it has none. Where it is no
/// JSON document, the lists are standing ones and the summary is the start
/// of the content.
pub open spec fn answer_of(content: Seq<char>) -> AssessmentAnswerView {
    match json_document(content) {
        Ok(document) => AssessmentAnswerView {
            document: Some(document),
            expertise_areas: texts_under(document, "expertise_areas"@),
            recommended_badges: texts_under(document, "recommended_badges"@),
            analysis_summary: match member_text(document, "analysis_summary"@) {
                Some(summary) => summary,
                None => "Azure OpenAI analysis completed"@,
            },
            strengths: texts_under(document, "strengths"@),
            improvement_areas: texts_under(document, "improvement_areas"@),
        },
        Err(_) => AssessmentAnswerView {
            document: None,
            expertise_areas: seq!["General Development"@],
            recommended_badges: seq!["Developer"@],
            analysis_summary: summary_start(content),
            strengths: seq!["Active contributor"@],
            improvement_areas: seq!["Expand skill diversity"@],
        },
    }
}

fn one_text(text: &str) -> (texts: Vec<String>)
    ensures
        views(texts@) == seq![text@],
{
    let mut texts: Vec<String> = Vec::new();
    texts.push(String::from_str(text));
    assert(views(texts@) =~= seq![text@]);
    texts
}

/// Reads the content of an answer.
pub fn read_answer_content(content: &str) -> (answer: AssessmentAnswer)
    ensures
        answer@ == answer_of(content@),
{
    match parse_document(content) {
        Ok(document) => {
            let expertise_areas = texts_under_of(&document, "expertise_areas");
            let recommended_badges = texts_under_of(&document, "recommended_badges");
            let analysis_summary = match text_member(&document, "analysis_summary") {
                Some(summary) => summary,
                None => String::from_str("Azure OpenAI analysis completed"),
            };
            let strengths = texts_under_of(&document, "strengths");
            let improvement_areas = texts_under_of(&document, "improvement_areas");
            AssessmentAnswer {
                document: Some(document),
                expertise_areas,
                recommended_badges,
                analysis_summary,
                strengths,
                improvement_areas,
            }
        },
        Err(_) => {
            let length: usize = content.unicode_len();
            let summary = if length <= SUMMARY_LENGTH {
                String::from_str(content)
            } else {
                String::from_str(content.substring_char(0, SUMMARY_LENGTH))
            };
            AssessmentAnswer {
                document: None,
                expertise_areas: one_text("General Development"),
                recommended_badges: one_text("Developer"),
                analysis_summary: summary,
                strengths: one_text("Active contributor"),
                improvement_areas: one_text("Expand skill diversity"),
            }
        },
    }
}

/// Reads an answer of the endpoint. It fails where the answer is no JSON
/// document, with the parser's words, and where it holds no content.
pub fn parse_azure_openai_response(response: &str) -> (r: Result<AssessmentAnswer, String>)
    ensures
        r is Ok <==> (json_document(response@) is Ok && answer_content(
            json_document(response@)->Ok_0,
        ) is Some),
        r matches Ok(answer) ==> answer@ == answer_of(
            answer_content(json_document(response@)->Ok_0)->0,
        ),
        r matches Err(e) ==> e@ == (if json_document(response@) is Ok {
            "No content in Azure OpenAI response"@
        } else {
            "Failed to parse Azure OpenAI response JSON: "@ + json_error_text(
                json_document(response@)->Err_0,
            )
        }),
{
    match parse_document(response) {
        Ok(document) => match answer_content_of(&document) {
            Some(content) => Ok(read_answer_content(content.as_str())),
            None => Err(String::from_str("No content in Azure OpenAI response")),
        },
        Err(error) => {
            let words = error_text(&error);
            Err(join2("Failed to parse Azure OpenAI response JSON: ", words.as_str()))
        },
    }
}

} // verus!
