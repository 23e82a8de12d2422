use voicenote::api::{bearer, is_success, Choice, LLMResponse, Message, WhisperResponse};
use voicenote::config::{Config, LlmConfig, WhisperConfig};
use voicenote::env::{gitignore_entries, EnvConfig, EnvError};

fn llm_config(template: &str) -> LlmConfig {
    LlmConfig {
        url: "https://llm.example/v1/chat".to_string(),
        model: "writer".to_string(),
        system_prompt: "You write notes.".to_string(),
        user_prompt_template: template.to_string(),
    }
}

#[test]
fn env_needs_both_keys() {
    let none = EnvConfig::load(None, None, None, None);
    assert!(matches!(none, Err(EnvError::MissingWhisperKey)));
    let no_whisper = EnvConfig::load(None, Some("l".to_string()), None, None);
    assert!(matches!(no_whisper, Err(EnvError::MissingWhisperKey)));
    let no_llm = EnvConfig::load(Some("w".to_string()), None, Some("a.wav".to_string()), None);
    assert!(matches!(no_llm, Err(EnvError::MissingLlmKey)));
}

#[test]
fn env_fills_in_default_file_names() {
    let config = EnvConfig::load(Some("w".to_string()), Some("l".to_string()), None, None).unwrap();
    assert_eq!(config.whisper_api_key, "w");
    assert_eq!(config.llm_api_key, "l");
    assert_eq!(config.recording_filename, "recording.wav");
    assert_eq!(config.output_filename, "output.md");
}

#[test]
fn env_keeps_given_file_names() {
    let config = EnvConfig::load(
        Some("w".to_string()),
        Some("l".to_string()),
        Some("take.wav".to_string()),
        Some("notes.md".to_string()),
    )
    .unwrap();
    assert_eq!(config.recording_filename, "take.wav");
    assert_eq!(config.output_filename, "notes.md");
}

#[test]
fn env_errors_in_words() {
    assert_eq!(EnvError::MissingWhisperKey.message(), "WHISPER_API_KEY not found in environment");
    assert_eq!(EnvError::MissingLlmKey.message(), "LLM_API_KEY not found in environment");
}

#[test]
fn gitignore_entries_are_five_lines_after_a_blank() {
    assert_eq!(gitignore_entries(), "\n# Environment Variables\n.env\n.env.local\n*.wav\n*.md\n");
}

#[test]
fn config_holds_both_services() {
    let whisper = WhisperConfig { url: "https://stt.example".to_string(), model: "whisper-1".to_string() };
    let config = Config::load(whisper, llm_config("{}"));
    assert_eq!(config.whisper_api.url, "https://stt.example");
    assert_eq!(config.whisper_api.model, "whisper-1");
    assert_eq!(config.llm_api.model, "writer");
}

#[test]
fn user_prompt_replaces_every_placeholder() {
    assert_eq!(llm_config("Summarise: {}").user_prompt("hello"), "Summarise: hello");
    assert_eq!(llm_config("{} and {}").user_prompt("x"), "x and x");
    assert_eq!(llm_config("no placeholder").user_prompt("x"), "no placeholder");
    assert_eq!(llm_config("{} and {}").user_prompt("hi"), "hi and hi");
    assert_eq!(llm_config("{}{}").user_prompt("{}"), "{}{}");
    assert_eq!(llm_config("{{}}").user_prompt("a"), "{a}");
    assert_eq!(llm_config("").user_prompt("a"), "");
}

#[test]
fn chat_request_has_system_then_user() {
    let request = llm_config("Notes on: {}").chat_request("the talk");
    assert_eq!(request.model, "writer");
    assert_eq!(request.messages.len(), 2);
    assert_eq!(request.messages[0].role, "system");
    assert_eq!(request.messages[0].content, "You write notes.");
    assert_eq!(request.messages[1].role, "user");
    assert_eq!(request.messages[1].content, "Notes on: the talk");
}

#[test]
fn bearer_header_value() {
    assert_eq!(bearer("abc"), "Bearer abc");
    assert_eq!(bearer(""), "Bearer ");
}

#[test]
fn success_is_the_two_hundreds() {
    assert!(!is_success(199));
    assert!(is_success(200));
    assert!(is_success(204));
    assert!(is_success(299));
    assert!(!is_success(300));
    assert!(!is_success(404));
    assert!(!is_success(500));
}

#[test]
fn responses_give_their_text() {
    let whisper = WhisperResponse { text: "spoken words".to_string() };
    assert_eq!(whisper.transcript(), "spoken words");
    let llm = LLMResponse {
        choices: vec![
            Choice { message: Message { content: "# First".to_string() } },
            Choice { message: Message { content: "# Second".to_string() } },
        ],
    };
    assert_eq!(llm.document(), "# First");
    assert_eq!(llm.first_document(), Some("# First".to_string()));
    let empty = LLMResponse { choices: Vec::new() };
    assert_eq!(empty.first_document(), None);
}
