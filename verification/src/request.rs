use crate::json::{lemma_array_view, lemma_object_view, Json, JsonView};
use vstd::prelude::*;
use vstd::string::StringExecFns;

verus! {

/// The instructions that go before every prompt.
pub const INIT_MESSAGE: &'static str = "\
enter a prompt to generate a response from the AI model
{
    \"command\": \"value\",
    \"parameters\": {
        \"size\": 1,
        \"color\": \"red\"
    }
}
Always respond with valid JSON in the exact format shown above. Here is the prompt:";

/// The host of the service, as it goes into the `Host` header.
pub const API_HOST: &'static str = "generativelanguage.googleapis.com";

/// The address that a connectivity probe resolves.
pub const PROBE_ADDRESS: &'static str = "generativelanguage.googleapis.com:443";

/// The endpoint of the service, up to the API key that ends it.
pub const ENDPOINT_PREFIX: &'static str =
    "https://generativelanguage.googleapis.com/v1beta/models/gemini-1.5-flash:generateContent?key=";

/// The text that is sent for a prompt: the instructions, then the prompt.
pub open spec fn prompt_text(prompt: Seq<char>) -> Seq<char> {
    INIT_MESSAGE@ + prompt
}

/// The body of the request for a prompt: one message of the user with one
/// part of text, and the settings of the generation.
pub open spec fn request_envelope(prompt: Seq<char>) -> JsonView {
    JsonView::Object(
        seq![
            (
                "contents"@,
                JsonView::Array(
                    seq![
                        JsonView::Object(
                            seq![
                                (
                                    "parts"@,
                                    JsonView::Array(
                                        seq![
                                            JsonView::Object(
                                                seq![
                                                    (
                                                        "text"@,
                                                        JsonView::String(prompt_text(prompt)),
                                                    ),
                                                ],
                                            ),
                                        ],
                                    ),
                                ),
                                ("role"@, JsonView::String("user"@)),
                            ],
                        ),
                    ],
                ),
            ),
            (
                "generationConfig"@,
                JsonView::Object(
                    seq![
                        ("temperature"@, JsonView::Number("0.1"@)),
                        ("topK"@, JsonView::Number("1"@)),
                        ("topP"@, JsonView::Number("1"@)),
                    ],
                ),
            ),
        ],
    )
}

/// The settings of the HTTP transport that a client sends with.
#[derive(Debug, Clone, Copy, PartialEq, Eq, Structural)]
pub struct TransportConfig {
    /// The time that a whole request may take, in seconds.
    pub timeout_secs: u64,
    /// The interval of TCP keep-alive probes, in seconds; `None` for no probes.
    pub tcp_keepalive_secs: Option<u64>,
    /// How many idle connections are kept for each host.
    pub pool_max_idle_per_host: usize,
}

/// The settings that every client is made with: 30 seconds for a request,
/// keep-alive probes every 60 seconds, no idle connection kept.
pub open spec fn fixed_transport() -> TransportConfig {
    TransportConfig {
        timeout_secs: 30,
        tcp_keepalive_secs: Some(60u64),
        pool_max_idle_per_host: 0,
    }
}

impl Default for TransportConfig {
    /// The settings that every client is made with.
    fn default() -> (config: TransportConfig)
        ensures
            config == fixed_transport(),
    {
        TransportConfig { timeout_secs: 30, tcp_keepalive_secs: Some(60), pool_max_idle_per_host: 0 }
    }
}

/// A client of the service: it holds the API key that its requests carry
/// and the settings of its transport.
#[derive(Debug, Clone)]
pub struct AiClient {
    api_key: String,
    transport: TransportConfig,
}

/// The model of an `AiClient`.
pub struct AiClientView {
    pub api_key: Seq<char>,
    pub transport: TransportConfig,
}

impl View for AiClient {
    type V = AiClientView;

    closed spec fn view(&self) -> AiClientView {
        AiClientView { api_key: self.api_key@, transport: self.transport }
    }
}

impl Default for AiClient {
    /// A client with an empty API key.
    fn default() -> (client: AiClient)
        ensures
            client@.api_key == Seq::<char>::empty(),
            client@.transport == fixed_transport(),
    {
        AiClient { api_key: String::new(), transport: TransportConfig::default() }
    }
}

/// An object with the given members.
fn object_of(members: Vec<(String, Json)>) -> (document: Json)
    ensures
        document@ matches JsonView::Object(all) && all.len() == members.len() && forall|i: int|
            0 <= i < members.len() ==> #[trigger] all[i] == (members[i].0@, members[i].1@),
{
    proof {
        lemma_object_view(members);
    }
    Json::Object(members)
}

/// An array with the given elements.
fn array_of(items: Vec<Json>) -> (document: Json)
    ensures
        document@ matches JsonView::Array(all) && all.len() == items.len() && forall|i: int|
            0 <= i < items.len() ==> #[trigger] all[i] == items[i]@,
{
    proof {
        lemma_array_view(items);
    }
    Json::Array(items)
}

impl AiClient {
    /// A client for the given API key, with the fixed settings of the transport.
    pub fn new(api_key: String) -> (client: AiClient)
        ensures
            client@.api_key == api_key@,
            client@.transport == fixed_transport(),
    {
        AiClient { api_key, transport: TransportConfig::default() }
    }

    /// The API key of the client.
    pub fn api_key(&self) -> (key: &str)
        ensures
            key@ == self@.api_key,
    {
        self.api_key.as_str()
    }

    /// The settings of the transport of the client.
    pub fn transport(&self) -> (config: TransportConfig)
        ensures
            config == self@.transport,
    {
        self.transport
    }

    /// The address that a request of this client is posted to.
    pub fn request_url(&self) -> (url: String)
        ensures
            url@ == ENDPOINT_PREFIX@ + self@.api_key,
    {
        ENDPOINT_PREFIX.to_owned().concat(self.api_key.as_str())
    }

    /// The text that is sent for `prompt`.
    pub fn request_text(prompt: &str) -> (text: String)
        ensures
            text@ == prompt_text(prompt@),
    {
        INIT_MESSAGE.to_owned().concat(prompt)
    }

    /// The body of the request for `prompt`.
    pub fn request_body(prompt: &str) -> (body: Json)
        ensures
            body@ == request_envelope(prompt@),
    {
        let text = Json::String(AiClient::request_text(prompt));
        let part = object_of(vec![("text".to_owned(), text)]);
        let parts = array_of(vec![part]);
        let role = Json::String("user".to_owned());
        let message = object_of(vec![("parts".to_owned(), parts), ("role".to_owned(), role)]);
        let contents = array_of(vec![message]);
        let settings = object_of(
            vec![
                ("temperature".to_owned(), Json::Number("0.1".to_owned())),
                ("topK".to_owned(), Json::Number("1".to_owned())),
                ("topP".to_owned(), Json::Number("1".to_owned())),
            ],
        );
        let body = object_of(
            vec![("contents".to_owned(), contents), ("generationConfig".to_owned(), settings)],
        );
        assert(part@->Object_0 =~= seq![("text"@, JsonView::String(prompt_text(prompt@)))]);
        assert(parts@->Array_0 =~= seq![part@]);
        assert(message@->Object_0 =~= seq![("parts"@, parts@), ("role"@, role@)]);
        assert(contents@->Array_0 =~= seq![message@]);
        assert(settings@->Object_0 =~= seq![
            ("temperature"@, JsonView::Number("0.1"@)),
            ("topK"@, JsonView::Number("1"@)),
            ("topP"@, JsonView::Number("1"@)),
        ]);
        assert(body@->Object_0 =~= seq![("contents"@, contents@), ("generationConfig"@, settings@)]);
        body
    }
}

} // verus!
