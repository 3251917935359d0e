use ralph::architect::{DESIGN_FILE, PRD_FILE, TASKS_FILE};
use ralph::errors::RalphError;
use ralph::models::FileStructure;
use ralph::provider::{provider_from_lowered, ModelConfig, Provider};
use ralph::raw::RawValue;

#[test]
fn default_model_choice() {
    let config = ModelConfig::default();
    assert_eq!(config.provider, "gemini");
    assert_eq!(config.model_name, "gemini-3-pro-preview");
    assert_eq!(config.provider(), Ok(Provider::Gemini));
}

#[test]
fn artifact_names() {
    assert_eq!(PRD_FILE, "prd.md");
    assert_eq!(DESIGN_FILE, "design.md");
    assert_eq!(TASKS_FILE, "tasks.json");
}

#[test]
fn provider_is_read_without_regard_to_case() {
    assert_eq!(ModelConfig::new("Anthropic", "m").provider(), Ok(Provider::Anthropic));
    assert_eq!(ModelConfig::new("OPENAI", "m").provider(), Ok(Provider::OpenAi));
    assert_eq!(ModelConfig::new("gemini", "m").provider(), Ok(Provider::Gemini));
    assert_eq!(provider_from_lowered("openai"), Ok(Provider::OpenAi));
    assert!(provider_from_lowered("OpenAI").is_err());
}

#[test]
fn unknown_provider_is_a_configuration_error() {
    assert_eq!(
        ModelConfig::new("Mistral", "m").provider(),
        Err(RalphError::Configuration(
            "Unsupported model provider: mistral. Supported: anthropic, openai, gemini".to_string()
        ))
    );
    assert_eq!(
        RalphError::Configuration("x".to_string()).describe(),
        "configuration error: x"
    );
}

#[test]
fn keys_of_providers() {
    assert_eq!(Provider::Anthropic.key_variables(), vec!["ANTHROPIC_API_KEY"]);
    assert_eq!(Provider::OpenAi.key_variables(), vec!["OPENAI_API_KEY"]);
    assert_eq!(Provider::Gemini.key_variables(), vec!["GEMINI_API_KEY", "GOOGLE_API_KEY"]);
    assert_eq!(
        Provider::Gemini.missing_key_error(),
        RalphError::Configuration("GEMINI_API_KEY or GOOGLE_API_KEY environment variable not set".to_string())
    );
    assert_eq!(
        Provider::Anthropic.missing_key_error(),
        RalphError::Configuration("ANTHROPIC_API_KEY environment variable not set".to_string())
    );
    assert_eq!(
        Provider::OpenAi.missing_key_error(),
        RalphError::Configuration("OPENAI_API_KEY environment variable not set".to_string())
    );
    for provider in [Provider::Anthropic, Provider::OpenAi, Provider::Gemini] {
        assert_eq!(provider_from_lowered(provider.name()), Ok(provider));
    }
}

#[test]
fn copies_are_equal_to_what_was_copied() {
    let mut root = FileStructure::directory("p", "Project root");
    let mut src = FileStructure::directory("src", "");
    src.children.push(FileStructure::file("a.x", "first"));
    root.children.push(src);
    root.children.push(FileStructure::file("b.x", ""));
    assert_eq!(root.clone(), root);
    assert_eq!(root.duplicate().children[0].children[0].description, "first");
    let value = RawValue::object(vec![
        ("a".to_string(), RawValue::array(vec![RawValue::Null, RawValue::signed(-1), RawValue::text("t")])),
        ("b".to_string(), RawValue::Decimal("1.5".to_string())),
        ("c".to_string(), RawValue::object(vec![("d".to_string(), RawValue::Bool(true))])),
    ]);
    assert_eq!(value.clone(), value);
}
