//! The logic of the clipboard-driven chat assistant: the session that its hotkeys
//! edit, the chat request it builds, the clipboard data it takes, and the typer
//! that replays an answer one character per key press.

use vstd::prelude::*;

verus! {

/// The chat model that a request goes to.
#[derive(Debug, Clone, Copy, PartialEq, Eq, Structural)]
pub enum GptModel {
    Gpt35Turbo,
    Gpt4O,
    GptO1,
}

/// The name under which the chat service knows a model.
pub open spec fn spec_model_name(model: GptModel) -> Seq<char> {
    match model {
        GptModel::Gpt35Turbo => "gpt-3.5-turbo-0125"@,
        GptModel::Gpt4O => "gpt-4o"@,
        GptModel::GptO1 => "o1"@,
    }
}

/// The model that follows `model` when the user switches models.
pub open spec fn spec_next_model(model: GptModel) -> GptModel {
    match model {
        GptModel::Gpt35Turbo => GptModel::Gpt4O,
        GptModel::Gpt4O => GptModel::GptO1,
        GptModel::GptO1 => GptModel::Gpt35Turbo,
    }
}

impl GptModel {
    /// The model's name for the chat service.
    pub fn to_string(&self) -> (name: String)
        ensures
            name@ == spec_model_name(*self),
    {
        match self {
            GptModel::Gpt35Turbo => String::from_str("gpt-3.5-turbo-0125"),
            GptModel::Gpt4O => String::from_str("gpt-4o"),
            GptModel::GptO1 => String::from_str("o1"),
        }
    }

    /// The model that follows this one when the user switches models.
    pub fn next(&self) -> (model: GptModel)
        ensures
            model == spec_next_model(*self),
    {
        match self {
            GptModel::Gpt35Turbo => GptModel::Gpt4O,
            GptModel::Gpt4O => GptModel::GptO1,
            GptModel::GptO1 => GptModel::Gpt35Turbo,
        }
    }
}

impl Default for GptModel {
    /// The default model is GPT-4o.
    fn default() -> (model: GptModel)
        ensures
            model == GptModel::Gpt4O,
    {
        GptModel::Gpt4O
    }
}

/// Switching models three times comes back to the model one started with, and
/// the three models are all reached on the way.
pub proof fn lemma_model_cycle(model: GptModel)
    ensures
        spec_next_model(spec_next_model(spec_next_model(model))) == model,
        spec_next_model(model) != model,
        spec_next_model(spec_next_model(model)) != model,
{
}

/// What the clipboard held when it was read.
#[derive(Debug, Clone, PartialEq, Eq)]
pub enum ClipboardData {
    /// Text, not empty.
    Text(String),
    /// An image, as a data URL.
    Image(String),
    /// Nothing that the assistant takes.
    NoData,
}

/// The clipboard's text, where it is not empty.
pub fn clipboard_text(text: String) -> (taken: Option<String>)
    ensures
        taken == (if text@.len() > 0 { Some(text) } else { None::<String> }),
{
    if text.as_str().is_empty() {
        None
    } else {
        Some(text)
    }
}

/// What the assistant takes from the clipboard: the image where there is one,
/// else the text where there is some, else nothing.
pub fn select_clipboard_data(image: Option<String>, text: Option<String>) -> (data: ClipboardData)
    ensures
        data == (match image {
            Some(url) => ClipboardData::Image(url),
            None => match text {
                Some(t) => ClipboardData::Text(t),
                None => ClipboardData::NoData,
            },
        }),
{
    match image {
        Some(url) => ClipboardData::Image(url),
        None => match text {
            Some(t) => ClipboardData::Text(t),
            None => ClipboardData::NoData,
        },
    }
}

/// The upper bound on the length of an answer, in tokens.
pub const MAX_TOKENS: u32 = 2048;

/// A message of a chat request.
#[derive(Debug, Clone, PartialEq, Eq)]
pub enum ChatMessage {
    /// The system prompt.
    SystemPrompt,
    /// The user message that asks for a summary.
    SummaryPrompt,
    /// The user's message: its text and, where there is one, its image as a data URL.
    User { text: String, image: Option<String> },
}

/// The chat request that the assistant sends: the model, the messages in order,
/// and the bound on the answer's length.
pub struct ChatRequestPlan {
    pub model: GptModel,
    pub messages: Vec<ChatMessage>,
    pub max_tokens: u32,
}

/// The messages of a request: the system prompt, the summary prompt where asked
/// for, then the user's message with its text and optional image.
pub open spec fn spec_request_messages(
    include_summary: bool,
    text: String,
    image: Option<String>,
) -> Seq<ChatMessage> {
    seq![ChatMessage::SystemPrompt] + (if include_summary {
        seq![ChatMessage::SummaryPrompt]
    } else {
        Seq::empty()
    }) + seq![ChatMessage::User { text, image }]
}

/// The state that the assistant's hotkeys work on.
pub struct Session {
    /// The text captured from the clipboard.
    pub prompt: String,
    /// The image captured from the clipboard as a data URL, empty when there is none.
    pub image: String,
    /// The model that text prompts go to.
    pub model: GptModel,
    /// Whether the request asks for a summary as well.
    pub summary_prompt: bool,
    /// The last answer, once one has come.
    pub output_prompt: Option<String>,
}

/// The model a request goes to: GPT-4o where the request holds an image and the
/// chosen model is GPT-3.5, which takes no images; the chosen model otherwise.
pub open spec fn spec_request_model(model: GptModel, has_image: bool) -> GptModel {
    if has_image && model == GptModel::Gpt35Turbo {
        GptModel::Gpt4O
    } else {
        model
    }
}

/// A request goes to the chosen model, but for one case: a request with an image
/// goes to GPT-4o where the chosen model is GPT-3.5, which takes no images.
pub proof fn lemma_request_model(model: GptModel, has_image: bool)
    ensures
        !has_image ==> spec_request_model(model, has_image) == model,
        has_image && model != GptModel::Gpt35Turbo ==> spec_request_model(model, has_image)
            == model,
        has_image && model == GptModel::Gpt35Turbo ==> spec_request_model(model, has_image)
            == GptModel::Gpt4O,
        spec_request_model(model, has_image) != GptModel::Gpt35Turbo || !has_image,
{
}

impl Session {
    /// The session at start: nothing captured, GPT-4o, summary asked for, no answer.
    pub fn new() -> (s: Session)
        ensures
            s.prompt@ == Seq::<char>::empty(),
            s.image@ == Seq::<char>::empty(),
            s.model == GptModel::Gpt4O,
            s.summary_prompt,
            s.output_prompt is None,
    {
        Session {
            prompt: String::new(),
            image: String::new(),
            model: GptModel::Gpt4O,
            summary_prompt: true,
            output_prompt: None,
        }
    }

    /// Forgets the captured image.
    pub fn clear_image(&mut self)
        ensures
            final(self).image@ == Seq::<char>::empty(),
            final(self).prompt == old(self).prompt,
            final(self).model == old(self).model,
            final(self).summary_prompt == old(self).summary_prompt,
            final(self).output_prompt == old(self).output_prompt,
    {
        self.image = String::new();
    }

    /// Takes what was read from the clipboard: the text prompt is cleared, then an
    /// image replaces the image and text replaces the prompt.
    pub fn capture(&mut self, data: ClipboardData)
        ensures
            match data {
                ClipboardData::Image(url) => final(self).prompt@ == Seq::<char>::empty()
                    && final(self).image == url,
                ClipboardData::Text(text) => final(self).prompt == text && final(self).image
                    == old(self).image,
                ClipboardData::NoData => final(self).prompt@ == Seq::<char>::empty()
                    && final(self).image == old(self).image,
            },
            final(self).model == old(self).model,
            final(self).summary_prompt == old(self).summary_prompt,
            final(self).output_prompt == old(self).output_prompt,
    {
        self.prompt = String::new();
        match data {
            ClipboardData::Image(url) => {
                self.image = url;
            },
            ClipboardData::Text(text) => {
                self.prompt = text;
            },
            ClipboardData::NoData => {},
        }
    }

    /// A new request starts: the last answer is dropped.
    pub fn begin_generation(&mut self)
        ensures
            final(self).output_prompt is None,
            final(self).prompt == old(self).prompt,
            final(self).image == old(self).image,
            final(self).model == old(self).model,
            final(self).summary_prompt == old(self).summary_prompt,
    {
        self.output_prompt = None;
    }

    /// The answer to a request came.
    pub fn finish_generation(&mut self, output: Option<String>)
        ensures
            final(self).output_prompt == output,
            final(self).prompt == old(self).prompt,
            final(self).image == old(self).image,
            final(self).model == old(self).model,
            final(self).summary_prompt == old(self).summary_prompt,
    {
        self.output_prompt = output;
    }

    /// Switches to the next model and returns it.
    pub fn cycle_model(&mut self) -> (model: GptModel)
        ensures
            model == spec_next_model(old(self).model),
            final(self).model == model,
            final(self).prompt == old(self).prompt,
            final(self).image == old(self).image,
            final(self).summary_prompt == old(self).summary_prompt,
            final(self).output_prompt == old(self).output_prompt,
    {
        let model = self.model.next();
        self.model = model;
        model
    }

    /// Turns the summary prompt on or off and returns the new setting.
    pub fn toggle_summary(&mut self) -> (on: bool)
        ensures
            on == !old(self).summary_prompt,
            final(self).summary_prompt == on,
            final(self).prompt == old(self).prompt,
            final(self).image == old(self).image,
            final(self).model == old(self).model,
            final(self).output_prompt == old(self).output_prompt,
    {
        self.summary_prompt = !self.summary_prompt;
        self.summary_prompt
    }

    /// The chat request for the captured prompt and image.
    pub fn chat_request(&self) -> (plan: ChatRequestPlan)
        ensures
            plan.model == spec_request_model(self.model, self.image@.len() > 0),
            plan.messages@ == spec_request_messages(
                self.summary_prompt,
                self.prompt,
                if self.image@.len() > 0 {
                    Some(self.image)
                } else {
                    None::<String>
                },
            ),
            plan.max_tokens == MAX_TOKENS,
    {
        let has_image = !self.image.as_str().is_empty();
        let model = if has_image && self.model == GptModel::Gpt35Turbo {
            GptModel::Gpt4O
        } else {
            self.model
        };
        let image = if has_image {
            Some(self.image.clone())
        } else {
            None
        };
        let mut messages: Vec<ChatMessage> = Vec::new();
        messages.push(ChatMessage::SystemPrompt);
        if self.summary_prompt {
            messages.push(ChatMessage::SummaryPrompt);
        }
        messages.push(ChatMessage::User { text: self.prompt.clone(), image });
        assert(messages@ =~= spec_request_messages(
            self.summary_prompt,
            self.prompt,
            if self.image@.len() > 0 {
                Some(self.image)
            } else {
                None::<String>
            },
        ));
        ChatRequestPlan { model, messages, max_tokens: MAX_TOKENS }
    }
}

/// The answer in a chat response: the content of its first choice, where there
/// is a choice and it has content.
pub fn first_choice_content(choices: Vec<Option<String>>) -> (content: Option<String>)
    ensures
        content == (if choices@.len() > 0 { choices@[0] } else { None::<String> }),
{
    if choices.len() > 0 {
        choices[0].clone()
    } else {
        None
    }
}

} // verus!
