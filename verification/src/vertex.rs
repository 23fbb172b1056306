//! The structured request body for the inference API, and the URL and
//! payload construction around it.
//!
//! The request's numeric sampling settings are floating-point values and
//! live with the caller; everything else — the contents, the system
//! instruction, the safety settings and the tools — is built here, pinned
//! field by field. Inline document data is carried base64-encoded; the
//! encoding is the outside crate's work, named here and exercised by the
//! tests.

use vstd::prelude::*;
use vstd::string::StringExecFns;

verus! {

/// A content item in the conversation.
#[derive(Debug)]
pub struct ContentItem {
    /// The role of the sender (e.g. "user")
    pub role: String,
    /// The content parts (text, inline data)
    pub parts: Vec<ContentPart>,
}

/// A part of a content item.
#[derive(Debug)]
pub enum ContentPart {
    /// Plain text part
    Text {
        /// The text itself
        text: String,
    },
    /// Inline data part (for documents, images and the like)
    InlineData {
        /// The carried data
        inline_data: InlineData,
    },
}

/// Inline data such as a document, base64-encoded.
#[derive(Debug)]
pub struct InlineData {
    /// The MIME type of the data
    pub mime_type: String,
    /// The base64-encoded data
    pub data: String,
}

/// System instructions guiding the model's behaviour.
#[derive(Debug)]
pub struct SystemInstruction {
    /// The parts of the system instruction
    pub parts: Vec<SystemInstructionPart>,
}

/// One part of the system instruction.
#[derive(Debug)]
pub struct SystemInstructionPart {
    /// The text of the system instruction
    pub text: String,
}

/// A content-filtering setting.
#[derive(Debug)]
pub struct SafetySetting {
    /// The category of content the setting is about
    pub category: String,
    /// The filtering threshold (e.g. "OFF", "LOW")
    pub threshold: String,
}

/// A tool enabled for the model.
#[derive(Debug)]
pub enum Tool {
    /// The web-search tool
    GoogleSearch {
        /// The tool's (empty) configuration
        google_search: GoogleSearch,
    },
}

/// Web-search tool configuration.
#[derive(Debug)]
pub struct GoogleSearch {}

/// A model, as the model-listing call reports it.
#[derive(Debug)]
pub struct VertexAIModel {
    /// The name of the model
    pub name: String,
    /// The display name of the model
    pub display_name: String,
    /// The description of the model
    pub description: String,
}

/// The base64 encoding (standard alphabet, padded) of a byte string.
pub uninterp spec fn base64_of(bytes: Seq<u8>) -> Seq<char>;

/// Relies on the base64 crate's STANDARD engine: Engine::encode returns
/// the padded standard-alphabet encoding, a function of the input bytes
/// alone, four characters for every three-byte group.
#[verifier::external_body]
fn base64_encode(bytes: &[u8]) -> (r: String)
    ensures
        r@ == base64_of(bytes@),
        r@.len() == 4 * ((bytes@.len() + 2) / 3),
{
    base64::Engine::encode(&base64::engine::general_purpose::STANDARD, bytes)
}

/// Builds the inline-data part carrying a PDF document: its bytes base64
/// encoded under the PDF MIME type.
pub fn inline_pdf_data(pdf_bytes: &[u8]) -> (d: InlineData)
    ensures
        d.mime_type@ == "application/pdf"@,
        d.data@ == base64_of(pdf_bytes@),
{
    InlineData { mime_type: "application/pdf".to_owned(), data: base64_encode(pdf_bytes) }
}

/// The data-extraction prompt used when the caller supplies none.
pub fn default_extraction_prompt() -> (r: &'static str)
    ensures
        r@
            == "read this file give all data in josn format. you need to be smart key mininingfull choise and a fild for acuracy score . in and contacrt there diifrent information related to girent people like adress of company or adresss of indidual who signe contarct. those need to be seperated."@,
{
    "read this file give all data in josn format. you need to be smart key mininingfull choise and a fild for acuracy score . in and contacrt there diifrent information related to girent people like adress of company or adresss of indidual who signe contarct. those need to be seperated."
}

/// The system instruction used when the caller supplies none.
pub fn default_system_instruction() -> (r: &'static str)
    ensures
        r@
            == "You are a data extractor specializing in insurance-related documents. You are an expert at extracting all data which can be extracted from any PDF, including data accessible through Optical Character Recognition (OCR)."@,
{
    "You are a data extractor specializing in insurance-related documents. You are an expert at extracting all data which can be extracted from any PDF, including data accessible through Optical Character Recognition (OCR)."
}

/// The request body for a PDF data extraction, except its numeric
/// generation settings (floating-point sampling values, which stay with
/// the caller).
#[derive(Debug)]
pub struct PdfExtractionParts {
    /// The user's message: the document and the prompt
    pub contents: Vec<ContentItem>,
    /// The system instruction guiding extraction
    pub system_instruction: SystemInstruction,
    /// Content filtering, all categories off
    pub safety_settings: Vec<SafetySetting>,
    /// The enabled tools
    pub tools: Vec<Tool>,
}

/// The four harm categories whose filtering the request turns off.
pub open spec fn safety_categories() -> Seq<Seq<char>> {
    seq![
        "HARM_CATEGORY_HATE_SPEECH"@,
        "HARM_CATEGORY_DANGEROUS_CONTENT"@,
        "HARM_CATEGORY_SEXUALLY_EXPLICIT"@,
        "HARM_CATEGORY_HARASSMENT"@,
    ]
}

/// Builds a PDF-extraction request body (except the numeric generation
/// settings): one user message holding the document inline and the
/// prompt, the given or default system instruction, every safety category
/// switched off, and the web-search tool.
pub fn new_pdf_extraction(
    pdf_base64: &str,
    prompt: &str,
    system_instruction: Option<&str>,
) -> (r: PdfExtractionParts)
    ensures
        r.contents@.len() == 1,
        r.contents@[0].role@ == "user"@,
        r.contents@[0].parts@.len() == 2,
        (r.contents@[0].parts@[0] matches ContentPart::InlineData { inline_data } && {
            &&& inline_data.mime_type@ == "application/pdf"@
            &&& inline_data.data@ == pdf_base64@
        }),
        (r.contents@[0].parts@[1] matches ContentPart::Text { text } && text@ == prompt@),
        r.system_instruction.parts@.len() == 1,
        r.system_instruction.parts@[0].text@ == (match system_instruction {
            Some(s) => s@,
            None =>
                "You are a data extractor specializing in insurance-related documents. You are an expert at extracting all data which can be extracted from any PDF, including data accessible through Optical Character Recognition (OCR)."@,
        }),
        r.safety_settings@.len() == 4,
        forall|i: int|
            0 <= i < 4 ==> (#[trigger] r.safety_settings@[i].category@) == safety_categories()[i]
                && r.safety_settings@[i].threshold@ == "OFF"@,
        r.tools@.len() == 1,
        r.tools@[0] is GoogleSearch,
{
    let system_text: String = match system_instruction {
        Some(s) => s.to_owned(),
        None => default_system_instruction().to_owned(),
    };
    let mut parts: Vec<ContentPart> = Vec::new();
    parts.push(
        ContentPart::InlineData {
            inline_data: InlineData {
                mime_type: "application/pdf".to_owned(),
                data: pdf_base64.to_owned(),
            },
        },
    );
    parts.push(ContentPart::Text { text: prompt.to_owned() });
    let mut contents: Vec<ContentItem> = Vec::new();
    contents.push(ContentItem { role: "user".to_owned(), parts });
    let mut instruction_parts: Vec<SystemInstructionPart> = Vec::new();
    instruction_parts.push(SystemInstructionPart { text: system_text });
    let mut safety_settings: Vec<SafetySetting> = Vec::new();
    safety_settings.push(
        SafetySetting {
            category: "HARM_CATEGORY_HATE_SPEECH".to_owned(),
            threshold: "OFF".to_owned(),
        },
    );
    safety_settings.push(
        SafetySetting {
            category: "HARM_CATEGORY_DANGEROUS_CONTENT".to_owned(),
            threshold: "OFF".to_owned(),
        },
    );
    safety_settings.push(
        SafetySetting {
            category: "HARM_CATEGORY_SEXUALLY_EXPLICIT".to_owned(),
            threshold: "OFF".to_owned(),
        },
    );
    safety_settings.push(
        SafetySetting {
            category: "HARM_CATEGORY_HARASSMENT".to_owned(),
            threshold: "OFF".to_owned(),
        },
    );
    let mut tools: Vec<Tool> = Vec::new();
    tools.push(Tool::GoogleSearch { google_search: GoogleSearch {  } });
    PdfExtractionParts {
        contents,
        system_instruction: SystemInstruction { parts: instruction_parts },
        safety_settings,
        tools,
    }
}

/// The API host for a location: `<location>-aiplatform.googleapis.com`.
pub open spec fn api_endpoint_chars(location: Seq<char>) -> Seq<char> {
    location + "-aiplatform.googleapis.com"@
}

/// Builds the API host for a location.
pub fn api_endpoint_for(location_id: &str) -> (r: String)
    ensures
        r@ == api_endpoint_chars(location_id@),
{
    let mut s = location_id.to_owned();
    s.append("-aiplatform.googleapis.com");
    s
}

/// The URL of a model's generate-content method.
pub open spec fn generate_content_url_chars(
    project: Seq<char>,
    location: Seq<char>,
    model: Seq<char>,
    stream: bool,
) -> Seq<char> {
    "https://"@ + api_endpoint_chars(location) + "/v1/projects/"@ + project + "/locations/"@
        + location + "/publishers/google/models/"@ + model + (if stream {
        ":streamGenerateContent"@
    } else {
        ":generateContent"@
    })
}

/// Builds the URL of a model's generate-content method.
pub fn generate_content_url(project_id: &str, location_id: &str, model_id: &str) -> (r: String)
    ensures
        r@ == generate_content_url_chars(project_id@, location_id@, model_id@, false),
{
    let mut s = "https://".to_owned();
    s.append(location_id);
    s.append("-aiplatform.googleapis.com");
    s.append("/v1/projects/");
    s.append(project_id);
    s.append("/locations/");
    s.append(location_id);
    s.append("/publishers/google/models/");
    s.append(model_id);
    s.append(":generateContent");
    proof {
        assert(s@ =~= generate_content_url_chars(project_id@, location_id@, model_id@, false));
    }
    s
}

/// Builds the URL of a model's streaming generate-content method.
pub fn stream_generate_content_url(
    project_id: &str,
    location_id: &str,
    model_id: &str,
) -> (r: String)
    ensures
        r@ == generate_content_url_chars(project_id@, location_id@, model_id@, true),
{
    let mut s = "https://".to_owned();
    s.append(location_id);
    s.append("-aiplatform.googleapis.com");
    s.append("/v1/projects/");
    s.append(project_id);
    s.append("/locations/");
    s.append(location_id);
    s.append("/publishers/google/models/");
    s.append(model_id);
    s.append(":streamGenerateContent");
    proof {
        assert(s@ =~= generate_content_url_chars(project_id@, location_id@, model_id@, true));
    }
    s
}

/// The location used when the caller names none.
pub fn location_or_default(location_id: Option<&str>) -> (r: &str)
    ensures
        r@ == (match location_id {
            Some(l) => l@,
            None => "us-central1"@,
        }),
{
    match location_id {
        Some(l) => l,
        None => "us-central1",
    }
}

/// The model used when the caller names none.
pub fn model_or_default(model_id: Option<&str>) -> (r: &str)
    ensures
        r@ == (match model_id {
            Some(m) => m@,
            None => "gemini-2.0-flash-exp"@,
        }),
{
    match model_id {
        Some(m) => m,
        None => "gemini-2.0-flash-exp",
    }
}

} // verus!
