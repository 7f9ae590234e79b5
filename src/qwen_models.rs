use vstd::prelude::*;
use crate::streaming::WebSearchInfo;

verus! {

/// The interaction mode of a chat.
#[derive(Debug, Clone, Copy, PartialEq, Eq, Structural)]
pub enum ChatType {
    /// Normal text-to-text conversation.
    TextToText,
    /// Web search enabled.
    Search,
    /// Deep research mode.
    DeepResearch,
    /// Image editing.
    ImageEdit,
    /// Text to video.
    TextToVideo,
    /// Text to image.
    TextToImage,
    /// Web development mode.
    WebDev,
    /// Artifacts mode.
    Artifacts,
    /// Travel planning.
    Travel,
}

/// The wire tag of each chat type.
pub open spec fn chat_type_tag(t: ChatType) -> Seq<char> {
    match t {
        ChatType::TextToText => "t2t"@,
        ChatType::Search => "search"@,
        ChatType::DeepResearch => "deep_research"@,
        ChatType::ImageEdit => "image_edit"@,
        ChatType::TextToVideo => "t2v"@,
        ChatType::TextToImage => "t2i"@,
        ChatType::WebDev => "web_dev"@,
        ChatType::Artifacts => "artifacts"@,
        ChatType::Travel => "travel"@,
    }
}

impl ChatType {
    /// The tag that the service expects for this chat type.
    pub fn as_str(&self) -> (r: &'static str)
        ensures
            r@ == chat_type_tag(*self),
    {
        match self {
            ChatType::TextToText => "t2t",
            ChatType::Search => "search",
            ChatType::DeepResearch => "deep_research",
            ChatType::ImageEdit => "image_edit",
            ChatType::TextToVideo => "t2v",
            ChatType::TextToImage => "t2i",
            ChatType::WebDev => "web_dev",
            ChatType::Artifacts => "artifacts",
            ChatType::Travel => "travel",
        }
    }
}

impl Default for ChatType {
    /// Plain text-to-text.
    fn default() -> (r: Self)
        ensures
            r == ChatType::TextToText,
    {
        ChatType::TextToText
    }
}

/// A model that the service lists.
#[derive(Debug, Clone)]
pub struct Model {
    pub id: String,
    pub name: String,
    pub object: String,
    pub owned_by: String,
    pub info: Option<ModelInfo>,
}

#[derive(Debug, Clone)]
pub struct ModelInfo {
    pub id: String,
    pub name: String,
    pub meta: ModelMeta,
}

#[derive(Debug, Clone)]
pub struct ModelMeta {
    pub description: String,
    pub short_description: String,
    pub capabilities: ModelCapabilities,
    pub abilities: ModelAbilities,
    pub chat_type: Vec<String>,
    pub modality: Vec<String>,
    pub max_context_length: u32,
    pub max_generation_length: u32,
    pub max_thinking_generation_length: u32,
}

#[derive(Debug, Clone, Copy, Default)]
pub struct ModelCapabilities {
    pub vision: bool,
    pub document: bool,
    pub video: bool,
    pub audio: bool,
    pub citations: bool,
    pub thinking: bool,
    pub thinking_budget: bool,
}

#[derive(Debug, Clone, Copy, Default)]
pub struct ModelAbilities {
    pub vision: u32,
    pub document: u32,
    pub video: u32,
    pub audio: u32,
    pub citations: u32,
    pub thinking: u32,
    pub thinking_budget: u32,
}

/// The list of models.
#[derive(Debug, Clone)]
pub struct ModelsResponse {
    pub data: Vec<Model>,
}

/// One turn's answer, with what continues the conversation.
#[derive(Debug, Clone)]
pub struct QwenResponse {
    pub content: String,
    pub response_id: String,
    pub chat_id: Option<String>,
    pub parent_id: Option<String>,
    pub web_search_results: Option<Vec<WebSearchInfo>>,
    pub thinking_content: Option<String>,
}

/// What a caller passes back to continue a conversation.
#[derive(Debug, Clone)]
pub struct ExtraData {
    pub chat_id: String,
    pub model_id: String,
    /// The response id of the last message.
    pub parent_id: Option<String>,
}

/// The state of a media generation task.
#[derive(Debug, Clone)]
pub struct TaskStatus {
    pub chat_type: String,
    /// `running`, `success` or `failed`.
    pub task_status: String,
    pub message: String,
    pub remaining_time: String,
    /// The media URL once done.
    pub content: String,
}

} // verus!
