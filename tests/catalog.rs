use allelo_mcp::halo::{Client, Error};
use allelo_mcp::{
    client_settings, input, mcp_response, metrics, producer_for, search, status, Auth,
    HandlerError, Input, LLMBackend, LLMClientOptions, LLMClientParams, LLMClientType,
    McpResponse, Metrics, ProducerKind, QueryType, Search, ServiceAuth, Status, tool_list,
    ToolArgument, ToolFunction,
};

#[test]
fn test_client_configuration() {
    assert_eq!(LLMClientType::OllamaQwen.to_model(), "qwen3:30b");
    assert_eq!(
        LLMClientType::OllamaQwen.to_options(),
        LLMClientOptions {
            max_tokens: 65536,
            reasoning: None,
            system_prompt: None,
            top_p_milli: 800,
            top_k: 20,
            temperature_milli: 700
        }
    );
}

#[test]
fn vicuna_configuration() {
    assert_eq!(LLMClientType::OllamaVicuna.to_model(), "vicuna:7b");
    let o = LLMClientType::OllamaVicuna.to_options();
    assert_eq!((o.max_tokens, o.top_p_milli, o.top_k, o.temperature_milli), (512, 950, 40, 700));
}

#[test]
fn settings_follow_type_and_params() {
    let params = LLMClientParams {
        base_url: "http://localhost:11434".to_string(),
        api_key: Some("SECRET-REDACTED".to_string()),
        timeout_secs: Some(30),
    };
    let s = client_settings(LLMClientType::OllamaQwen, params);
    assert_eq!(s.backend, LLMBackend::Ollama);
    assert!(!s.stream);
    assert_eq!(s.model, "qwen3:30b");
    assert_eq!(s.base_url, "http://localhost:11434");
    assert_eq!(s.api_key.as_deref(), Some("SECRET-REDACTED"));
    assert_eq!(s.timeout_seconds, Some(30));
    assert_eq!((s.max_tokens, s.top_k), (65536, 20));
    assert!(!s.reasoning);
    assert!(s.system.is_none());
}

#[test]
fn producer_selection() {
    assert_eq!(producer_for(Some(QueryType::RepeatPrompt), true), ProducerKind::Repeat);
    assert_eq!(producer_for(None, false), ProducerKind::Repeat);
    assert_eq!(producer_for(None, true), ProducerKind::Relay);
}

#[test]
fn tool_catalog_contents() {
    let list = tool_list();
    let names: Vec<&str> = list.0.iter().map(|t| t.name.as_str()).collect();
    assert_eq!(
        names,
        vec![
            "all_contacts",
            "contact_info",
            "contact_network",
            "chat_messages",
            "group_chat",
            "contact_activity",
            "contact_status"
        ]
    );
    assert!(list.0[0].args.is_empty());
    assert!(list.0[0].prompt_arguments().is_none());
    assert_eq!(list.0[4].args[0].description, "The name of the group");
    for t in &list.0[1..] {
        assert_eq!(t.required_arguments(), vec!["name".to_string()]);
        assert_eq!(t.prompt_arguments(), Some(t.args.clone()));
    }
}

#[test]
fn required_arguments_keep_order_and_skip_optional() {
    let arg = |n: &str, r: bool| ToolArgument { name: n.to_string(), description: String::new(), required: r };
    let t = ToolFunction {
        name: "t".to_string(),
        description: String::new(),
        args: vec![arg("a", true), arg("b", false), arg("c", true)],
    };
    assert_eq!(t.required_arguments(), vec!["a".to_string(), "c".to_string()]);
}

#[test]
fn endpoints_check_the_caller() {
    let s = Search { input: "q".to_string() };
    assert_eq!(search(&Auth(true), &s).unwrap().results.len(), 0);
    assert_eq!(search(&Auth(false), &s).unwrap_err(), HandlerError::Unauthenticated);
    let i = Input { input: "x".to_string() };
    assert_eq!(input(&Auth(true), &i), Ok(true));
    assert_eq!(input(&Auth(false), &i), Err(HandlerError::Unauthenticated));
    assert_eq!(mcp_response(&Auth(true), &McpResponse::default()), Ok(()));
    assert_eq!(mcp_response(&Auth(false), &McpResponse::default()), Err(HandlerError::Unauthenticated));
    assert_eq!(metrics(&ServiceAuth(true)), Ok(Metrics {}));
    assert_eq!(metrics(&ServiceAuth(false)), Err(HandlerError::Unauthenticated));
    assert_eq!(status(&ServiceAuth(true)), Ok(Status {}));
    assert_eq!(status(&ServiceAuth(false)), Err(HandlerError::Unauthenticated));
}

#[test]
fn fault_client_lists_known_faults() {
    let faults = Client {}.list_faults().unwrap();
    let summaries: Vec<String> = faults.iter().map(|f| f.summary()).collect();
    assert_eq!(
        summaries,
        vec!["this is an example summary".to_string(), "this is another example summary".to_string()]
    );
    assert_eq!(Error::default().message(), "unimplemented");
}

#[test]
fn test_service_catalog() {
    let list = allelo_mcp::test_tool_list();
    assert_eq!(list.0.len(), 2);
    assert_eq!(list.0[0].name, "test_tool");
    assert!(list.0[0].prompt_arguments().is_none());
    assert_eq!(list.0[1].name, "test_tool_with_parameters");
    assert_eq!(list.0[1].description, "unit test for tools with parameters");
    assert_eq!(list.0[1].required_arguments(), vec!["name".to_string()]);
}
