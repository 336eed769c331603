//! The outbound chat request: its nested message, the per-tone option
//! lists, and the builders that assemble them.

use vstd::prelude::*;
use crate::client::BingClient;
use crate::strings::str_eq;
use crate::trusted::{hex_of, hex_encode16, new_uuid_string, now_rfc3339, random_bytes_16};
use crate::types::chat_type::Chat;
use crate::types::plugin_type::{clone_plugins, Plugin};

verus! {

/// The conversation tone a request is made with.
#[derive(Debug, Clone, Copy, PartialEq, Eq, Structural)]
pub enum Tone {
    Creative,
    Balanced,
    Precise,
}

/// The wire name of a tone.
pub open spec fn spec_tone_name(t: Tone) -> Seq<char> {
    match t {
        Tone::Creative => "Creative"@,
        Tone::Balanced => "Balanced"@,
        Tone::Precise => "Precise"@,
    }
}

/// The tone for a wire name, if the name is one.
pub open spec fn spec_tone_of(name: Seq<char>) -> Option<Tone> {
    if name == "Creative"@ { Some(Tone::Creative) }
    else if name == "Balanced"@ { Some(Tone::Balanced) }
    else if name == "Precise"@ { Some(Tone::Precise) }
    else { None }
}

impl Tone {
    pub fn build_by_name(name: &str) -> (r: Option<Tone>)
        ensures
            r == spec_tone_of(name@),
    {
        if str_eq(name, "Creative") { Some(Tone::Creative) }
        else if str_eq(name, "Balanced") { Some(Tone::Balanced) }
        else if str_eq(name, "Precise") { Some(Tone::Precise) }
        else { None }
    }

    /// The wire name of this tone.
    pub fn render(&self) -> (r: String)
        ensures
            r@ == spec_tone_name(*self),
    {
        match self {
            Tone::Creative => String::from_str("Creative"),
            Tone::Balanced => String::from_str("Balanced"),
            Tone::Precise => String::from_str("Precise"),
        }
    }
}

/// The requesting participant.
#[derive(Debug, Clone)]
pub struct Participant {
    pub id: String,
}

#[derive(Debug, Clone)]
pub struct GptCreatorPersona {
    pub persona_id: String,
}

#[derive(Debug, Clone)]
pub struct ExtraExtensionParameters {
    pub gpt_creator_persona: GptCreatorPersona,
}

impl Default for ExtraExtensionParameters {
    fn default() -> (r: Self)
        ensures
            r.gpt_creator_persona.persona_id@ == "copilot"@,
    {
        ExtraExtensionParameters {
            gpt_creator_persona: GptCreatorPersona { persona_id: String::from_str("copilot") },
        }
    }
}

/// The option list the conversation-history block always carries.
#[derive(Debug, Clone)]
pub struct ConversationHistoryOptionsSets(pub Vec<String>);

impl Default for ConversationHistoryOptionsSets {
    fn default() -> (r: Self)
        ensures
            r.0.deep_view() == crate::types::delete_chat_type::spec_autosave_options(),
    {
        ConversationHistoryOptionsSets(crate::types::delete_chat_type::autosave_options())
    }
}

/// The option-set list sent for the creative tone.
pub open spec fn spec_options_creative() -> Seq<Seq<char>> {
    seq![
        "nlu_direct_response_filter"@, "deepleo"@, "disable_emoji_spoken_text"@,
        "responsible_ai_policy_235"@, "enablemm"@, "dv3sugg"@, "autosave"@, "iyxapbing"@,
        "iycapbing"@, "h3imaginative"@, "clgalileo"@, "enbela"@, "gndlogcf"@, "saisgrdcf"@,
        "codeintfilev2"@, "gptv1desc2"@, "eredirecturl"@, "enable_user_consent"@, "fluxmemcst"@,
        "ldsummary"@, "ldqa"@, "sdretrieval"@, "nosearchall"@,
    ]
}

/// The option-set list sent for the balanced tone.
pub open spec fn spec_options_balanced() -> Seq<Seq<char>> {
    seq![
        "nlu_direct_response_filter"@, "deepleo"@, "disable_emoji_spoken_text"@,
        "responsible_ai_policy_235"@, "enablemm"@, "dv3sugg"@, "autosave"@, "iyxapbing"@,
        "iycapbing"@, "galileo"@, "enbela"@, "gndlogcf"@, "saisgrdcf"@, "codeintfilev2"@,
        "gptv1desc2"@, "eredirecturl"@, "enable_user_consent"@, "fluxmemcst"@, "ldsummary"@,
        "ldqa"@, "sdretrieval"@, "nosearchall"@,
    ]
}

/// The option-set list sent for the precise tone.
pub open spec fn spec_options_precise() -> Seq<Seq<char>> {
    seq![
        "nlu_direct_response_filter"@, "deepleo"@, "disable_emoji_spoken_text"@,
        "responsible_ai_policy_235"@, "enablemm"@, "dv3sugg"@, "autosave"@, "iyxapbing"@,
        "iycapbing"@, "h3precise"@, "enbela"@, "gndlogcf"@, "saisgrdcf"@, "codeintfilev2"@,
        "gptv1desc2"@, "eredirecturl"@, "enable_user_consent"@, "fluxmemcst"@, "ldsummary"@,
        "ldqa"@, "sdretrieval"@, "clgalileo"@, "nosearchall"@,
    ]
}

/// The option-set list for a tone.
pub open spec fn spec_options_for(t: Tone) -> Seq<Seq<char>> {
    match t {
        Tone::Creative => spec_options_creative(),
        Tone::Balanced => spec_options_balanced(),
        Tone::Precise => spec_options_precise(),
    }
}

#[derive(Debug, Clone)]
pub struct OptionsSets(pub Vec<String>);

impl OptionsSets {
    pub fn creative() -> (r: OptionsSets)
        ensures
            r.0.deep_view() == spec_options_creative(),
    {
        let mut v: Vec<String> = Vec::new();
        v.push(String::from_str("nlu_direct_response_filter"));
        v.push(String::from_str("deepleo"));
        v.push(String::from_str("disable_emoji_spoken_text"));
        v.push(String::from_str("responsible_ai_policy_235"));
        v.push(String::from_str("enablemm"));
        v.push(String::from_str("dv3sugg"));
        v.push(String::from_str("autosave"));
        v.push(String::from_str("iyxapbing"));
        v.push(String::from_str("iycapbing"));
        v.push(String::from_str("h3imaginative"));
        v.push(String::from_str("clgalileo"));
        v.push(String::from_str("enbela"));
        v.push(String::from_str("gndlogcf"));
        v.push(String::from_str("saisgrdcf"));
        v.push(String::from_str("codeintfilev2"));
        v.push(String::from_str("gptv1desc2"));
        v.push(String::from_str("eredirecturl"));
        v.push(String::from_str("enable_user_consent"));
        v.push(String::from_str("fluxmemcst"));
        v.push(String::from_str("ldsummary"));
        v.push(String::from_str("ldqa"));
        v.push(String::from_str("sdretrieval"));
        v.push(String::from_str("nosearchall"));
        proof {
            assert(v.deep_view() =~= spec_options_creative());
        }
        OptionsSets(v)
    }

    pub fn balanced() -> (r: OptionsSets)
        ensures
            r.0.deep_view() == spec_options_balanced(),
    {
        let mut v: Vec<String> = Vec::new();
        v.push(String::from_str("nlu_direct_response_filter"));
        v.push(String::from_str("deepleo"));
        v.push(String::from_str("disable_emoji_spoken_text"));
        v.push(String::from_str("responsible_ai_policy_235"));
        v.push(String::from_str("enablemm"));
        v.push(String::from_str("dv3sugg"));
        v.push(String::from_str("autosave"));
        v.push(String::from_str("iyxapbing"));
        v.push(String::from_str("iycapbing"));
        v.push(String::from_str("galileo"));
        v.push(String::from_str("enbela"));
        v.push(String::from_str("gndlogcf"));
        v.push(String::from_str("saisgrdcf"));
        v.push(String::from_str("codeintfilev2"));
        v.push(String::from_str("gptv1desc2"));
        v.push(String::from_str("eredirecturl"));
        v.push(String::from_str("enable_user_consent"));
        v.push(String::from_str("fluxmemcst"));
        v.push(String::from_str("ldsummary"));
        v.push(String::from_str("ldqa"));
        v.push(String::from_str("sdretrieval"));
        v.push(String::from_str("nosearchall"));
        proof {
            assert(v.deep_view() =~= spec_options_balanced());
        }
        OptionsSets(v)
    }

    pub fn precise() -> (r: OptionsSets)
        ensures
            r.0.deep_view() == spec_options_precise(),
    {
        let mut v: Vec<String> = Vec::new();
        v.push(String::from_str("nlu_direct_response_filter"));
        v.push(String::from_str("deepleo"));
        v.push(String::from_str("disable_emoji_spoken_text"));
        v.push(String::from_str("responsible_ai_policy_235"));
        v.push(String::from_str("enablemm"));
        v.push(String::from_str("dv3sugg"));
        v.push(String::from_str("autosave"));
        v.push(String::from_str("iyxapbing"));
        v.push(String::from_str("iycapbing"));
        v.push(String::from_str("h3precise"));
        v.push(String::from_str("enbela"));
        v.push(String::from_str("gndlogcf"));
        v.push(String::from_str("saisgrdcf"));
        v.push(String::from_str("codeintfilev2"));
        v.push(String::from_str("gptv1desc2"));
        v.push(String::from_str("eredirecturl"));
        v.push(String::from_str("enable_user_consent"));
        v.push(String::from_str("fluxmemcst"));
        v.push(String::from_str("ldsummary"));
        v.push(String::from_str("ldqa"));
        v.push(String::from_str("sdretrieval"));
        v.push(String::from_str("clgalileo"));
        v.push(String::from_str("nosearchall"));
        proof {
            assert(v.deep_view() =~= spec_options_precise());
        }
        OptionsSets(v)
    }

    pub fn from_tone(tone: &Tone) -> (r: Self)
        ensures
            r.0.deep_view() == spec_options_for(*tone),
    {
        match tone {
            Tone::Creative => Self::creative(),
            Tone::Balanced => Self::balanced(),
            Tone::Precise => Self::precise(),
        }
    }
}

/// The message types every request allows; the same for every tone.
pub open spec fn spec_allowed_message_types() -> Seq<Seq<char>> {
    seq![
        "ActionRequest"@, "Chat"@, "ConfirmationCard"@, "Context"@, "InternalSearchQuery"@,
        "InternalSearchResult"@, "Disengaged"@, "InternalLoaderMessage"@, "Progress"@,
        "RenderCardRequest"@, "RenderContentRequest"@, "AdsQuery"@, "SemanticSerp"@,
        "GenerateContentQuery"@, "SearchQuery"@, "GeneratedCode"@, "InternalTasksMessage"@,
        "Disclaimer"@,
    ]
}

#[derive(Debug, Clone)]
pub struct AllowedMessageTypes(pub Vec<String>);

impl AllowedMessageTypes {
    fn build() -> (r: AllowedMessageTypes)
        ensures
            r.0.deep_view() == spec_allowed_message_types(),
    {
        let mut v: Vec<String> = Vec::new();
        v.push(String::from_str("ActionRequest"));
        v.push(String::from_str("Chat"));
        v.push(String::from_str("ConfirmationCard"));
        v.push(String::from_str("Context"));
        v.push(String::from_str("InternalSearchQuery"));
        v.push(String::from_str("InternalSearchResult"));
        v.push(String::from_str("Disengaged"));
        v.push(String::from_str("InternalLoaderMessage"));
        v.push(String::from_str("Progress"));
        v.push(String::from_str("RenderCardRequest"));
        v.push(String::from_str("RenderContentRequest"));
        v.push(String::from_str("AdsQuery"));
        v.push(String::from_str("SemanticSerp"));
        v.push(String::from_str("GenerateContentQuery"));
        v.push(String::from_str("SearchQuery"));
        v.push(String::from_str("GeneratedCode"));
        v.push(String::from_str("InternalTasksMessage"));
        v.push(String::from_str("Disclaimer"));
        proof {
            assert(v.deep_view() =~= spec_allowed_message_types());
        }
        AllowedMessageTypes(v)
    }

    pub fn creative() -> (r: AllowedMessageTypes)
        ensures
            r.0.deep_view() == spec_allowed_message_types(),
    {
        Self::build()
    }

    pub fn balanced() -> (r: AllowedMessageTypes)
        ensures
            r.0.deep_view() == spec_allowed_message_types(),
    {
        Self::build()
    }

    pub fn precise() -> (r: AllowedMessageTypes)
        ensures
            r.0.deep_view() == spec_allowed_message_types(),
    {
        Self::build()
    }

    pub fn from_tone(tone: &Tone) -> (r: Self)
        ensures
            r.0.deep_view() == spec_allowed_message_types(),
    {
        match tone {
            Tone::Creative => Self::creative(),
            Tone::Balanced => Self::balanced(),
            Tone::Precise => Self::precise(),
        }
    }
}

/// The experiment slices every request names; the same for every tone.
pub open spec fn spec_slice_ids() -> Seq<Seq<char>> {
    seq![
        "inputdes3cf"@, "0311tccs0"@, "gldidentitycf"@, "visperf"@, "visibilityperf"@,
        "engmhcf"@, "qnav2table1"@, "fltltstcf"@, "cntralignc"@, "streamw"@, "bcece403t"@,
        "romiccf"@, "rwt2"@, "cmcpupsalltf"@, "advtokc"@, "315endltall"@, "shopgptctrl"@,
        "320enbela"@, "0215wcrwippsr"@, "0328scnd"@, "fpsrhsticy"@, "0306flowvaca"@,
        "gptsmobile0"@, "328fixissuess0"@, "saisgrds0"@, "228pyfile"@, "ecipc"@,
        "kcclickthrucf"@, "cacfrwebt2cf"@, "sswebtop2cf"@,
    ]
}

#[derive(Debug, Clone)]
pub struct SliceIds(pub Vec<String>);

impl SliceIds {
    fn build() -> (r: SliceIds)
        ensures
            r.0.deep_view() == spec_slice_ids(),
    {
        let mut v: Vec<String> = Vec::new();
        v.push(String::from_str("inputdes3cf"));
        v.push(String::from_str("0311tccs0"));
        v.push(String::from_str("gldidentitycf"));
        v.push(String::from_str("visperf"));
        v.push(String::from_str("visibilityperf"));
        v.push(String::from_str("engmhcf"));
        v.push(String::from_str("qnav2table1"));
        v.push(String::from_str("fltltstcf"));
        v.push(String::from_str("cntralignc"));
        v.push(String::from_str("streamw"));
        v.push(String::from_str("bcece403t"));
        v.push(String::from_str("romiccf"));
        v.push(String::from_str("rwt2"));
        v.push(String::from_str("cmcpupsalltf"));
        v.push(String::from_str("advtokc"));
        v.push(String::from_str("315endltall"));
        v.push(String::from_str("shopgptctrl"));
        v.push(String::from_str("320enbela"));
        v.push(String::from_str("0215wcrwippsr"));
        v.push(String::from_str("0328scnd"));
        v.push(String::from_str("fpsrhsticy"));
        v.push(String::from_str("0306flowvaca"));
        v.push(String::from_str("gptsmobile0"));
        v.push(String::from_str("328fixissuess0"));
        v.push(String::from_str("saisgrds0"));
        v.push(String::from_str("228pyfile"));
        v.push(String::from_str("ecipc"));
        v.push(String::from_str("kcclickthrucf"));
        v.push(String::from_str("cacfrwebt2cf"));
        v.push(String::from_str("sswebtop2cf"));
        proof {
            assert(v.deep_view() =~= spec_slice_ids());
        }
        SliceIds(v)
    }

    pub fn creative() -> (r: SliceIds)
        ensures
            r.0.deep_view() == spec_slice_ids(),
    {
        Self::build()
    }

    pub fn balanced() -> (r: SliceIds)
        ensures
            r.0.deep_view() == spec_slice_ids(),
    {
        Self::build()
    }

    pub fn precise() -> (r: SliceIds)
        ensures
            r.0.deep_view() == spec_slice_ids(),
    {
        Self::build()
    }

    pub fn from_tone(tone: &Tone) -> (r: Self)
        ensures
            r.0.deep_view() == spec_slice_ids(),
    {
        match tone {
            Tone::Creative => Self::creative(),
            Tone::Balanced => Self::balanced(),
            Tone::Precise => Self::precise(),
        }
    }
}

/// The user's message inside a request.  The transport layer adds the
/// constant location-hint block when it serializes this; that block holds
/// geographic coordinates the verified core never reads.
#[derive(Debug, Clone)]
pub struct Message {
    pub locale: String,
    pub market: String,
    pub region: String,
    pub location: String,
    pub user_ip_address: String,
    pub timestamp: String,
    pub author: String,
    pub input_method: String,
    pub text: String,
    pub image_url: Option<String>,
    pub original_image_url: Option<String>,
    pub message_type: String,
    pub request_id: String,
    pub message_id: String,
}

impl Message {
    pub fn build(text_message: String, image_url: Option<String>, uuid: String) -> (r: Message)
        ensures
            r.locale@ == "en-US"@,
            r.market@ == "en-US"@,
            r.region@ == "US"@,
            r.location@ == "lat:47.639557;long:-122.128159;re=1000m;"@,
            r.user_ip_address@ == "13.212.211.208"@,
            r.author@ == "user"@,
            r.input_method@ == "Keyboard"@,
            r.text == text_message,
            r.image_url == image_url,
            r.original_image_url == image_url,
            r.message_type@ == "Chat"@,
            r.request_id == uuid,
            r.message_id == uuid,
    {
        let original = match &image_url {
            Some(u) => Some(u.clone()),
            None => None,
        };
        Message {
            locale: String::from_str("en-US"),
            market: String::from_str("en-US"),
            region: String::from_str("US"),
            location: String::from_str("lat:47.639557;long:-122.128159;re=1000m;"),
            user_ip_address: String::from_str("13.212.211.208"),
            timestamp: now_rfc3339(),
            author: String::from_str("user"),
            input_method: String::from_str("Keyboard"),
            text: text_message,
            image_url: original,
            original_image_url: image_url,
            message_type: String::from_str("Chat"),
            request_id: uuid.clone(),
            message_id: uuid,
        }
    }
}

/// One argument block of a request.
#[derive(Debug, Clone)]
pub struct Arguments {
    pub source: String,
    pub options_sets: OptionsSets,
    pub allowed_message_types: AllowedMessageTypes,
    pub slice_ids: SliceIds,
    pub verbosity: String,
    pub scenario: String,
    pub plugins: Vec<Plugin>,
    pub trace_id: String,
    pub conversation_history_options_sets: ConversationHistoryOptionsSets,
    pub gpt_id: String,
    pub is_start_of_session: bool,
    pub request_id: String,
    pub message: Message,
    pub tone: String,
    pub extra_extension_parameters: ExtraExtensionParameters,
    pub spoken_text_mode: String,
    pub conversation_id: String,
    pub participant: Participant,
}

impl Arguments {
    pub fn build(
        tone: Tone,
        plugins: Vec<Plugin>,
        uuid: String,
        text_message: String,
        image_url: Option<String>,
        chat: &Chat,
        client: &BingClient,
    ) -> (r: Arguments)
        ensures
            r.source@ == "cib"@,
            r.options_sets.0.deep_view() == spec_options_for(tone),
            r.allowed_message_types.0.deep_view() == spec_allowed_message_types(),
            r.slice_ids.0.deep_view() == spec_slice_ids(),
            r.verbosity@ == "verbose"@,
            r.scenario@ == "SERP"@,
            r.plugins == plugins,
            r.trace_id@.len() == 32,
            r.conversation_history_options_sets.0.deep_view()
                == crate::types::delete_chat_type::spec_autosave_options(),
            r.gpt_id@ == "copilot"@,
            r.is_start_of_session == true,
            r.request_id == uuid,
            r.message.text == text_message,
            r.message.image_url == image_url,
            r.message.original_image_url == image_url,
            r.message.request_id == uuid,
            r.message.message_id == uuid,
            r.tone@ == spec_tone_name(tone),
            r.extra_extension_parameters.gpt_creator_persona.persona_id@ == "copilot"@,
            r.spoken_text_mode@ == "None"@,
            r.conversation_id == chat.conversation_id,
            r.participant.id == client.client_id,
    {
        let buf = random_bytes_16();
        let trace_id = hex_encode16(&buf);
        proof {
            assert(trace_id@ == hex_of(buf@));
            assert(trace_id@.len() == 32);
        }
        Arguments {
            source: String::from_str("cib"),
            options_sets: OptionsSets::from_tone(&tone),
            allowed_message_types: AllowedMessageTypes::from_tone(&tone),
            slice_ids: SliceIds::from_tone(&tone),
            verbosity: String::from_str("verbose"),
            scenario: String::from_str("SERP"),
            plugins,
            trace_id,
            conversation_history_options_sets: ConversationHistoryOptionsSets::default(),
            gpt_id: String::from_str("copilot"),
            is_start_of_session: true,
            request_id: uuid.clone(),
            message: Message::build(text_message, image_url, uuid),
            tone: tone.render(),
            extra_extension_parameters: ExtraExtensionParameters::default(),
            spoken_text_mode: String::from_str("None"),
            conversation_id: chat.conversation_id.clone(),
            participant: Participant { id: client.client_id.clone() },
        }
    }
}

/// The request record a stream opens with.
#[derive(Debug, Clone)]
pub struct UserInput {
    pub arguments: Vec<Arguments>,
    pub invocation_id: String,
    pub target: String,
    pub type_num: i32,
}

/// The plugins a request carries: the conversation's own, or the given
/// ones if the conversation names none.
pub open spec fn spec_effective_plugins(chat_plugins: Seq<Plugin>, given: Seq<Plugin>) -> Seq<
    Plugin,
> {
    if chat_plugins.len() > 0 {
        chat_plugins
    } else {
        given
    }
}

/// The tone a request carries: the conversation's own, where it names a
/// known one, else the given fallback.
pub open spec fn spec_effective_tone(chat_tone: Option<String>, fallback: Tone) -> Tone {
    match chat_tone {
        Some(n) => match spec_tone_of(n@) {
            Some(t) => t,
            None => fallback,
        },
        None => fallback,
    }
}

impl UserInput {
    /// Assembles the request record.  An image the caller wants attached is
    /// handed in as the URL its upload yielded.
    pub fn build(
        text_message: String,
        image_url: Option<String>,
        tone: Tone,
        plugins: Vec<Plugin>,
        chat: &Chat,
        client: &BingClient,
    ) -> (r: UserInput)
        ensures
            r.arguments@.len() == 1,
            r.arguments@[0].message.text == text_message,
            r.arguments@[0].message.image_url == image_url,
            r.arguments@[0].message.original_image_url == image_url,
            r.arguments@[0].plugins@ == spec_effective_plugins(chat.plugins@, plugins@),
            r.arguments@[0].tone@ == spec_tone_name(
                spec_effective_tone(chat.tone, tone),
            ),
            r.arguments@[0].options_sets.0.deep_view() == spec_options_for(
                spec_effective_tone(chat.tone, tone),
            ),
            r.arguments@[0].conversation_id == chat.conversation_id,
            r.arguments@[0].participant.id == client.client_id,
            r.arguments@[0].request_id@.len() == 36,
            r.arguments@[0].message.request_id == r.arguments@[0].request_id,
            r.arguments@[0].message.message_id == r.arguments@[0].request_id,
            r.invocation_id@ == "0"@,
            r.target@ == "chat"@,
            r.type_num == 4,
    {
        let uuid = new_uuid_string();
        let final_plugins = if chat.plugins.len() > 0 {
            clone_plugins(&chat.plugins)
        } else {
            plugins
        };
        let final_tone = match &chat.tone {
            Some(name) => match Tone::build_by_name(name.as_str()) {
                Some(t) => t,
                None => tone,
            },
            None => tone,
        };
        let argument = Arguments::build(
            final_tone,
            final_plugins,
            uuid.clone(),
            text_message,
            image_url,
            chat,
            client,
        );
        let mut arguments: Vec<Arguments> = Vec::new();
        arguments.push(argument);
        UserInput {
            arguments,
            invocation_id: String::from_str("0"),
            target: String::from_str("chat"),
            type_num: 4,
        }
    }
}

} // verus!
