use reloaded_code::core_tools::error::{ToolError as CoreError, ToolOutput};
use reloaded_code::core_tools::glob::GlobOutput;
use reloaded_code::models::{ModelCatalog, ProviderInfo, ProviderSource, ProviderType};
use reloaded_code::serdesai::convert::{
    core_error_to_serdes, field_for_out_of_bounds, output_to_return, to_serdes_result, SerdesToolError, ToolReturn,
};
use reloaded_code::serdesai::custom::{CustomTool, CustomToolAdapter, SerdesTestFactory, ToolPrompt, ToolRunContext};
use reloaded_code::serdesai::glob::{glob_output_to_return, output_content};
use reloaded_code::serdesai::agent_ext::{AgentBuildError, ToolResultExt};
use reloaded_code::serdesai::mock::{scripted_reply, ScriptedReply, Streamed};
use reloaded_code::serdesai::provider_bridge::{
    azure_endpoint_from_resource, feature_disabled_error, matching_env_names, normalize_azure_endpoint, normalized_api_url,
    plan_serdes_model, urls_equal_ignoring_slash, CredentialValues, EnvKind, ModelPlan,
};
use reloaded_code::core_tools::task::TaskSettings;
use reloaded_code::serdesai::task::{render_task_targets, task_tool_attached, task_tool_description, TaskTargetSummary};

struct EchoTool;

impl CustomTool for EchoTool {
    fn name(&self) -> &'static str {
        "test_echo"
    }
    fn context(&self) -> ToolPrompt {
        ToolPrompt::Static("Echo tool for tests.")
    }
    fn call(&self, ctx: ToolRunContext, args: serde_json::Value) -> Result<ToolOutput, CoreError> {
        let msg = args.get("msg").and_then(|m| m.as_str()).unwrap_or_default().to_string();
        let model = ctx.model_name.unwrap_or_else(|| "unknown".to_string());
        Ok(ToolOutput::new(format!("{model}:{msg}")))
    }
}

struct FailTool;

impl CustomTool for FailTool {
    fn name(&self) -> &'static str {
        "fail"
    }
    fn context(&self) -> ToolPrompt {
        ToolPrompt::Static("")
    }
    fn call(&self, _ctx: ToolRunContext, _args: serde_json::Value) -> Result<ToolOutput, CoreError> {
        Err(CoreError::Execution("boom".to_string()))
    }
}

fn summary(name: &str, description: &str) -> TaskTargetSummary {
    TaskTargetSummary { name: name.to_string(), description: description.to_string() }
}

fn single_provider_catalog(key: &str, api_url: &str, env: &[&str], api_type: ProviderType) -> ModelCatalog {
    let providers = vec![ProviderSource::new(
        key.to_string(),
        ProviderInfo {
            api_url: api_url.to_string(),
            env_vars: env.iter().map(|s| s.to_string()).collect(),
            api_type,
        },
    )];
    ModelCatalog::build(providers, &Vec::new()).expect("catalog fixture should build")
}

fn creds(pairs: &[(&str, &str)]) -> CredentialValues {
    let mut c = CredentialValues::new();
    for (k, v) in pairs {
        c.insert(k.to_string(), v.to_string());
    }
    c
}

#[test]
fn adapter_exposes_name_and_context_from_inner() {
    let adapter = CustomToolAdapter::new(EchoTool);
    assert_eq!(adapter.name(), "test_echo");
    assert!(matches!(adapter.context(), ToolPrompt::Static(_)));
}

#[test]
fn adapter_forwards_call_and_context() {
    let adapter = CustomToolAdapter::new(EchoTool);
    let ctx = ToolRunContext::new().with_model_name("test-model");
    let args: serde_json::Value = serde_json::from_str(r#"{"msg": "hello"}"#).unwrap();
    let ret = adapter.call(ctx, args).expect("call should succeed");
    assert_eq!(ret.as_text(), Some("test-model:hello"));
}

#[test]
fn adapter_maps_errors() {
    let adapter = CustomToolAdapter::new(FailTool);
    let result = adapter.call(ToolRunContext::new(), serde_json::Value::Null);
    assert!(result.is_err());
}

#[test]
fn test_factory_makes_fixed_tools() {
    let factory = SerdesTestFactory::new("stub", "Stub prompt.", "stub answer");
    assert_eq!(factory.name(), "stub");
    assert_eq!(factory.context(), ToolPrompt::Static("Stub prompt."));
    let tool = factory.create();
    let out = tool.call(ToolRunContext::new(), serde_json::Value::Null).unwrap();
    assert_eq!(out.content, "stub answer");
}

#[test]
fn tool_output_converts_to_text_when_not_truncated() {
    let ret = output_to_return(ToolOutput::new("hello world".to_string()));
    assert_eq!(ret.as_text(), Some("hello world"));
}

#[test]
fn tool_output_converts_to_json_when_truncated() {
    let ret = output_to_return(ToolOutput::truncated("partial content".to_string()));
    assert_eq!(ret, ToolReturn::TruncatedJson { content: "partial content".to_string() });
}

#[test]
fn to_serdes_result_preserves_tool_name_in_validation_errors() {
    let serdes_err = to_serdes_result("read_file", Err(CoreError::InvalidPath("bad path".into()))).unwrap_err();
    match serdes_err {
        SerdesToolError::ValidationFailed { tool_name, field, message } => {
            assert_eq!(tool_name, "read_file");
            assert_eq!(field.as_deref(), Some("path"));
            assert!(message.contains("bad path"));
        }
        _ => unreachable!(),
    }
}

#[test]
fn to_serdes_result_maps_success() {
    let serdes_result = to_serdes_result("test_tool", Ok(ToolOutput::new("success".to_string())));
    assert!(serdes_result.is_ok());
    assert_eq!(serdes_result.unwrap().as_text(), Some("success"));
}

#[test]
fn to_serdes_result_maps_error() {
    let serdes_result = to_serdes_result("test_tool", Err(CoreError::Execution("command failed".into())));
    assert!(serdes_result.is_err());
}

#[test]
fn out_of_bounds_limit_maps_to_limit_field() {
    let serdes_err = core_error_to_serdes("read", CoreError::OutOfBounds("limit must be >= 1".into()));
    match serdes_err {
        SerdesToolError::ValidationFailed { field, .. } => assert_eq!(field.as_deref(), Some("limit")),
        _ => unreachable!(),
    }
}

#[test]
fn validation_old_string_maps_to_old_string_field() {
    let serdes_err = core_error_to_serdes(
        "edit",
        CoreError::validation_for("old_string", "old_string must not be empty".to_string()),
    );
    match serdes_err {
        SerdesToolError::ValidationFailed { field, .. } => assert_eq!(field.as_deref(), Some("old_string")),
        _ => unreachable!(),
    }
}

#[test]
fn execution_errors_stay_on_runtime_failure_path() {
    let e = core_error_to_serdes("t", CoreError::Execution("command failed".into()));
    assert!(matches!(e, SerdesToolError::ExecutionFailed { .. }));
    assert!(e.message().contains("execution error"));
    let e = core_error_to_serdes(
        "t",
        CoreError::TimeoutWithKillFailure { message: "timed out".into(), kill_error: "operation not permitted".into() },
    );
    assert!(e.message().contains("timed out"));
    assert!(e.message().contains("operation not permitted"));
    let e = core_error_to_serdes("t", CoreError::PermissionDenied { tool: "bash".into(), subject: "rm".into() });
    assert_eq!(e.message(), "Permission denied for tool 'bash' on subject 'rm'");
    assert_eq!(field_for_out_of_bounds("offset 9 past end"), Some("offset".to_string()));
    assert_eq!(field_for_out_of_bounds("other"), None);
}

#[test]
fn partial_glob_output_returns_json_payload() {
    let payload = glob_output_to_return(GlobOutput {
        files: vec!["src/lib.rs".to_string()],
        truncated: false,
        partial: true,
        errors: vec!["walk error: denied".to_string()],
    });
    match payload {
        ToolReturn::PartialJson { content, errors, truncated } => {
            assert_eq!(content, "src/lib.rs");
            assert_eq!(errors[0], "walk error: denied");
            assert!(!truncated);
        }
        other => panic!("unexpected return: {other:?}"),
    }
}

#[test]
fn glob_output_content_lists_files_or_notice() {
    assert_eq!(output_content(&Vec::new()), "No files found matching the pattern.");
    assert_eq!(output_content(&vec!["a".to_string(), "b".to_string()]), "a\nb");
}

#[test]
fn render_task_targets_renders_expected_output() {
    let rendered = render_task_targets(&vec![
        summary("zebra", "Last alphabetically"),
        summary("alpha", "First alphabetically"),
        summary("mike", "Middle"),
    ]);
    assert_eq!(rendered, "Available subagents:\n- alpha: First alphabetically\n- mike: Middle\n- zebra: Last alphabetically\n");
    let rendered = render_task_targets(&vec![summary("with-task", "Can delegate"), summary("no-task", "Cannot delegate")]);
    assert_eq!(rendered, "Available subagents:\n- no-task: Cannot delegate\n- with-task: Can delegate\n");
    assert!(!rendered.contains("tools:"));
    assert_eq!(render_task_targets(&Vec::new()), "No callable subagents are available.");
}

#[test]
fn scripted_model_calls_tool_then_answers() {
    match scripted_reply(false, &Vec::new(), "read", "done") {
        ScriptedReply::ToolCall { announcement, tool_name } => {
            assert_eq!(announcement, "Calling read...");
            assert_eq!(tool_name, "read");
        }
        other => panic!("unexpected: {other:?}"),
    }
    assert_eq!(
        scripted_reply(true, &vec!["r1".to_string(), "r2".to_string()], "read", "done"),
        ScriptedReply::Text("done\n\nr1\nr2".to_string())
    );
    assert_eq!(scripted_reply(true, &Vec::new(), "read", "done"), ScriptedReply::Text("done".to_string()));
}

#[test]
fn urls_are_normalized() {
    assert_eq!(normalized_api_url("  https://x.example/v1//  "), Some("https://x.example/v1".to_string()));
    assert_eq!(normalized_api_url("  / "), None);
    assert!(urls_equal_ignoring_slash("https://a/", "https://a"));
    assert!(!urls_equal_ignoring_slash("https://a/b", "https://a"));
    assert_eq!(normalize_azure_endpoint(" https://r.openai.azure.com/openai/v1/ "), "https://r.openai.azure.com");
    assert_eq!(normalize_azure_endpoint("https://r.openai.azure.com/openai"), "https://r.openai.azure.com");
    assert_eq!(azure_endpoint_from_resource("my-resource"), "https://my-resource.openai.azure.com");
    assert_eq!(azure_endpoint_from_resource("https://x.example/openai/"), "https://x.example");
}

#[test]
fn env_names_are_listed_for_errors() {
    let env = vec!["FOO_API_KEY".to_string(), "FOO_REGION".to_string(), "FOO_TOKEN".to_string()];
    assert_eq!(matching_env_names(&env, EnvKind::Credential), "FOO_API_KEY, FOO_TOKEN");
    assert_eq!(matching_env_names(&env, EnvKind::AzureResourceName), "<none listed in catalog>");
}

#[test]
fn plan_uses_first_set_credential_and_catalog_url() {
    let catalog = single_provider_catalog(
        "openrouter",
        "https://openrouter.ai/api/v1/",
        &["OPENROUTER_API_KEY"],
        ProviderType::OpenRouter,
    );
    let plan = plan_serdes_model(&catalog, "openrouter", "openai/gpt-4.1-mini", &creds(&[("OPENROUTER_API_KEY", "k")]))
        .unwrap();
    assert_eq!(plan, ModelPlan::OpenRouter { model: "openai/gpt-4.1-mini".to_string(), api_key: "k".to_string() });
    assert_eq!(plan.spec(), "openrouter:openai/gpt-4.1-mini");

    let err = plan_serdes_model(&catalog, "openrouter", "m", &creds(&[])).unwrap_err();
    assert_eq!(
        err.message,
        "provider `openrouter` mapped to serdes `openrouter` requires an API key; set one of: OPENROUTER_API_KEY"
    );
    let err = plan_serdes_model(&catalog, "missing", "m", &creds(&[])).unwrap_err();
    assert_eq!(err.message, "effective provider `missing` disappeared from the model catalog after validation");
}

#[test]
fn plan_refuses_other_url_for_fixed_endpoint() {
    let catalog = single_provider_catalog("co", "https://elsewhere.example", &["CO_API_KEY"], ProviderType::Cohere);
    let err = plan_serdes_model(&catalog, "co", "command", &creds(&[("CO_API_KEY", "k")])).unwrap_err();
    assert!(err.message.contains("does not support overriding its built-in endpoint `https://api.cohere.ai/v2`"));
}

#[test]
fn plan_openai_compatible_keeps_base_url() {
    let catalog = single_provider_catalog("local", "http://localhost:8080/v1/", &["LOCAL_API_KEY"], ProviderType::OpenAiCompletions);
    let plan = plan_serdes_model(&catalog, "local", "m", &creds(&[("LOCAL_API_KEY", "secret")])).unwrap();
    assert_eq!(
        plan,
        ModelPlan::OpenAiChat {
            model: "m".to_string(),
            api_key: "secret".to_string(),
            base_url: Some("http://localhost:8080/v1".to_string()),
        }
    );
}

#[test]
fn plan_bedrock_uses_aws_names() {
    let catalog = single_provider_catalog("aws", "", &[], ProviderType::Bedrock);
    let plan = plan_serdes_model(
        &catalog,
        "aws",
        "sonnet",
        &creds(&[("AWS_ACCESS_KEY_ID", "id"), ("AWS_SECRET_ACCESS_KEY", "secret"), ("AWS_DEFAULT_REGION", "eu-west-1")]),
    )
    .unwrap();
    assert_eq!(
        plan,
        ModelPlan::Bedrock {
            model: "sonnet".to_string(),
            access_key_id: "id".to_string(),
            secret_access_key: "secret".to_string(),
            session_token: None,
            region: Some("eu-west-1".to_string()),
        }
    );
    let err = plan_serdes_model(&catalog, "aws", "sonnet", &creds(&[("AWS_ACCESS_KEY_ID", "id")])).unwrap_err();
    assert_eq!(
        err.message,
        "provider `aws` mapped to serdes `bedrock` requires an AWS secret access key; set `AWS_SECRET_ACCESS_KEY`"
    );
}

#[test]
fn plan_azure_resolves_endpoint_from_resource_name() {
    let catalog = single_provider_catalog(
        "az",
        "",
        &["AZURE_RESOURCE_NAME", "AZURE_API_KEY"],
        ProviderType::Azure,
    );
    let plan = plan_serdes_model(
        &catalog,
        "az",
        "gpt",
        &creds(&[("AZURE_RESOURCE_NAME", "res"), ("AZURE_API_KEY", "k")]),
    )
    .unwrap();
    assert_eq!(
        plan,
        ModelPlan::Azure {
            model: "gpt".to_string(),
            endpoint: "https://res.openai.azure.com".to_string(),
            api_key: "k".to_string(),
        }
    );
    let err = plan_serdes_model(&catalog, "az", "gpt", &creds(&[("AZURE_API_KEY", "k")])).unwrap_err();
    assert!(err.message.contains("set one of: AZURE_RESOURCE_NAME"));
}

#[test]
fn plan_unknown_type_is_refused_and_ollama_needs_no_key() {
    let catalog = single_provider_catalog("x", "", &[], ProviderType::Unknown);
    let err = plan_serdes_model(&catalog, "x", "m", &creds(&[])).unwrap_err();
    assert_eq!(err.message, "provider `x` has no SerdesAI mapping because its catalog provider type is unknown");
    let catalog = single_provider_catalog("local", "", &[], ProviderType::Ollama);
    let plan = plan_serdes_model(&catalog, "local", "llama", &creds(&[])).unwrap();
    assert_eq!(plan, ModelPlan::Ollama { model: "llama".to_string(), base_url: None });
}

#[test]
fn streamed_reports_inner_name_until_renamed() {
    let wrapped = Streamed::new(7u32, "test-model");
    assert_eq!(wrapped.name(), "test-model");
    let renamed = wrapped.with_name("custom");
    assert_eq!(renamed.name(), "custom");
    assert_eq!(*renamed.inner(), 7u32);
}

#[test]
fn with_tool_wraps_errors_with_tool_name() {
    let ok: Result<u8, CoreError> = Ok(5);
    assert_eq!(ok.with_tool("glob"), Ok(5));
    let err: Result<u8, CoreError> = Err(CoreError::Validation { field: None, message: "bad".to_string() });
    assert_eq!(
        err.with_tool("glob"),
        Err(AgentBuildError::ToolSettingsValidation {
            tool: "glob",
            source: CoreError::Validation { field: None, message: "bad".to_string() }
        })
    );
}

#[test]
fn feature_disabled_error_names_provider_and_feature() {
    let e = feature_disabled_error("bedrock", "bedrock");
    assert_eq!(
        e.message,
        "provider `bedrock` is not enabled in reloaded-code-serdesai; rebuild with `--features bedrock`"
    );
}

#[test]
fn task_tool_is_attached_only_below_max_depth_with_callable_targets() {
    let targets = vec![summary("alpha", "Alpha agent")];
    let settings = TaskSettings::new();
    assert!(task_tool_attached(settings, 0, &targets));
    assert!(task_tool_attached(settings, 2, &targets));
    assert!(!task_tool_attached(settings, 3, &targets));
    assert!(!task_tool_attached(settings, 0, &Vec::new()));
    assert!(!task_tool_attached(TaskSettings::with_max_depth(0), 0, &targets));
}

#[test]
fn task_tool_description_follows_prefix_with_sorted_targets() {
    let targets = vec![summary("beta", "Beta agent"), summary("alpha", "Alpha agent")];
    assert_eq!(
        task_tool_description("Delegate work.", &targets),
        "Delegate work.\n\nAvailable subagents:\n- alpha: Alpha agent\n- beta: Beta agent\n"
    );
}
