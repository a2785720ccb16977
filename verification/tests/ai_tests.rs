use cortex::ai::{
    is_complex_query, should_use_cloud, AIContext, AIError, ModelManager, ModelRegistry, ModelTier, PromptBuilder,
    ProviderMode, SimpleAIProvider, UsageCounts,
};

#[test]
fn context_text() {
    let ctx = AIContext::new("/home/u".to_string())
        .with_files(vec!["/home/u/a.txt".to_string(), "/".to_string()])
        .with_history((1..=7).map(|i| format!("cmd{}", i)).collect())
        .with_additional_context("extra".to_string());
    assert_eq!(
        ctx.to_prompt_context(),
        "Current directory: /home/u\nSelected files:\n  - a.txt\n\nRecent commands:\n  - cmd1\n  - cmd2\n  - cmd3\n  - cmd4\n  - cmd5\n\nAdditional context:\nextra\n"
    );
    assert_eq!(AIContext::new("/".to_string()).to_prompt_context(), "Current directory: /\n");
}

#[test]
fn prompt_building() {
    let p = PromptBuilder::new().with_system_prompt("SYS".to_string()).with_user_prompt("do it".to_string());
    assert_eq!(p.build(), "SYS\n\nUser request: do it");
    let q = p.with_context(AIContext::new("/d".to_string()));
    assert_eq!(q.build(), "SYS\n\nCurrent directory: /d\n\n\nUser request: do it");
    assert!(PromptBuilder::new().build().starts_with("You are an AI assistant integrated into Cortex"));
    assert_eq!(
        PromptBuilder::bulk_rename_prompt("dates"),
        "Generate meaningful names for the selected files based on: dates\nProvide a list of rename operations in the format:\nold_name -> new_name"
    );
    assert!(PromptBuilder::search_prompt("photos").contains("description: photos\n"));
    assert!(PromptBuilder::file_organization_prompt().starts_with("Analyze the files"));
}

#[test]
fn simple_assistant_answers() {
    let a = SimpleAIProvider::new();
    let r = a.complete("Please COPY this", AIContext::new("/".to_string())).unwrap();
    assert!(r.content.starts_with("To copy files:"));
    assert_eq!(r.provider, "simple-ai");
    assert_eq!(r.model, "simple-patterns");
    assert_eq!(r.tokens_used, None);
    assert!(a.generate_response("show me").starts_with("To list files"));
    assert!(a.generate_response("rename it").starts_with("To move or rename"));
    assert!(a.generate_response("help").starts_with("Cortex AI Assistant"));
    assert_eq!(
        a.generate_response("xyz"),
        "I understand you want to: xyz\n\nWhile I'm still learning, here are some things you can try:\n- Use arrow keys to navigate\n- Press F1 for help\n- Type /help for command list\n- Press Tab to switch between panels"
    );
    assert!(a.is_available());
    assert_eq!(a.max_context_tokens(), 1000);
    assert_eq!(a.name(), "simple-ai");
}

#[test]
fn hybrid_routing() {
    assert!(!should_use_cloud(ProviderMode::LocalOnly, "analyze", Some(false), Some(true)));
    assert!(should_use_cloud(ProviderMode::CloudOnly, "x", Some(true), None));
    assert!(should_use_cloud(ProviderMode::PreferLocal, "x", None, None));
    assert!(!should_use_cloud(ProviderMode::PreferLocal, "x", Some(true), None));
    assert!(!should_use_cloud(ProviderMode::PreferCloud, "x", Some(true), Some(false)));
    assert!(should_use_cloud(ProviderMode::CostOptimized, "please explain", None, None));
    assert!(!is_complex_query("short"));
    assert!(is_complex_query(&"x\n".repeat(11)));
    assert!(!is_complex_query(&"x\n".repeat(10)));
    assert!(is_complex_query(&"y".repeat(501)));
}

#[test]
fn usage_counting() {
    let mut u = UsageCounts::new();
    u.track_usage(true, Some(100));
    u.track_usage(false, None);
    u.track_usage(false, Some(5));
    assert_eq!((u.cloud_requests, u.cloud_tokens, u.local_requests, u.local_tokens), (1, 100, 2, 5));
}

#[test]
fn error_messages() {
    assert_eq!(AIError::ModelNotFound("m".to_string()).message(), "Model 'm' not found");
    assert_eq!(AIError::ProviderUnavailable.message(), "AI provider is not available");
    assert_eq!(AIError::NetworkError("down".to_string()).message(), "Network error: down");
}

#[test]
fn model_registry() {
    let reg = ModelRegistry { models: ModelRegistry::default_models(), last_updated: 0 };
    assert_eq!(reg.models.len(), 5);
    assert_eq!(reg.estimate_ram_usage("tinyllama-1b-chat"), Some(1_000_000_000));
    assert_eq!(reg.estimate_ram_usage("nope"), None);
    assert!(reg.can_run_locally("tinyllama-1b-chat", Some(1_000_000)));
    assert!(!reg.can_run_locally("tinyllama-1b-chat", Some(900_000)));
    assert!(!reg.can_run_locally("gpt-4-turbo", Some(u64::MAX / 1024)));
    assert!(!reg.can_run_locally("tinyllama-1b-chat", None));
    assert_eq!(reg.download_source("x"), Err("Model x not found".to_string()));
    assert_eq!(reg.download_source("gpt-4-turbo"), Err("Premium models don't need to be downloaded".to_string()));
    let (url, file) = reg.download_source("llama2-7b-chat-q4").unwrap();
    assert!(url.ends_with("llama-2-7b-chat.Q4_K_M.gguf"));
    assert_eq!(file, "llama2-7b-chat-q4.gguf");
    assert_eq!(reg.find("gpt-4-turbo").unwrap().tier, ModelTier::Premium);
}

#[test]
fn model_manager_downloads() {
    let mut m = ModelManager::new("/data/models".to_string(), 0);
    assert_eq!(m.list_available_models().len(), 5);
    assert!(!m.is_model_downloaded("a"));
    m.record_download("a", "/data/models/a.gguf".to_string());
    m.record_download("a", "/data/models/a2.gguf".to_string());
    assert_eq!(m.list_downloaded_models().len(), 1);
    assert_eq!(m.get_model_path("a"), Some(&"/data/models/a2.gguf".to_string()));
    assert_eq!(m.forget_download("a"), Some("/data/models/a2.gguf".to_string()));
    assert_eq!(m.forget_download("a"), None);
    assert_eq!(
        m.download_target("mistral-7b-instruct-q4").map(|p| p.1),
        Ok("/data/models/mistral-7b-instruct-q4.gguf".to_string())
    );
}

#[test]
fn hybrid_routes_and_counts() {
    use_hybrid();
}

fn answer(tokens: Option<usize>) -> cortex::ai::AIResponse {
    cortex::ai::AIResponse {
        content: "ok".to_string(),
        provider: "p".to_string(),
        model: "m".to_string(),
        tokens_used: tokens,
    }
}

fn use_hybrid() {
    let mut h = cortex::ai::HybridProvider::new(cortex::ai::ProviderMode::PreferLocal);
    assert_eq!(h.route("hi", Some(true), Some(true)), cortex::ai::Route::Local);
    assert_eq!(h.route("hi", Some(false), Some(true)), cortex::ai::Route::Cloud);
    assert_eq!(h.route("hi", Some(false), None), cortex::ai::Route::Unavailable);
    h.set_mode(cortex::ai::ProviderMode::CostOptimized);
    assert_eq!(h.route("please explain this", Some(true), Some(true)), cortex::ai::Route::Cloud);
    assert_eq!(h.route("list files", Some(true), None), cortex::ai::Route::Local);
    let r = h.finish(cortex::ai::Route::Cloud, Ok(answer(Some(120))));
    assert_eq!(r.unwrap().content, "ok");
    h.finish(cortex::ai::Route::Local, Ok(answer(None)));
    h.finish(cortex::ai::Route::Local, Err(cortex::ai::AIError::ContextTooLarge));
    assert!(matches!(
        h.finish(cortex::ai::Route::Unavailable, Ok(answer(Some(5)))),
        Err(cortex::ai::AIError::ProviderUnavailable)
    ));
    let u = h.get_usage_stats();
    assert_eq!((u.cloud_requests, u.cloud_tokens, u.local_requests, u.local_tokens), (1, 120, 1, 0));
    assert_eq!(h.name(), "hybrid");
    assert_eq!(h.model(), "hybrid-auto");
    assert!(h.is_available(None, Some(true)));
    assert!(!h.is_available(Some(false), None));
}
