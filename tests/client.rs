use neural::client::{
    diagnose_health, health_status, names_from_entries, status_is_success, translate_outcome,
    translation_from_reply, DEFAULT_TIMEOUT_SECS, DOCUMENT_NUM_PREDICT, HEALTH_TIMEOUT_SECS,
};
use neural::prompt::PromptStyle;
use neural::{ClientError, HttpOutcome, Method, OllamaClient, TranslateRequest};

fn request(text: &str, from: &str, to: &str) -> TranslateRequest {
    TranslateRequest { text: text.to_string(), from_lang: from.to_string(), to_lang: to.to_string() }
}

fn replied(status: u16, body: &str) -> HttpOutcome {
    HttpOutcome::Replied(status, body.to_string())
}

#[test]
fn request_prompt_holds_text_and_languages() {
    let client = OllamaClient::new();
    let req = client.translate_request(&request("Good morning, \"friend\"\n", "English", "Japanese"));
    let body: serde_json::Value = serde_json::from_str(req.body.as_deref().unwrap()).unwrap();
    let prompt = body["prompt"].as_str().unwrap();
    assert!(prompt.contains("Good morning, \"friend\"\n"));
    assert!(prompt.contains("English"));
    assert!(prompt.contains("Japanese"));
    assert_eq!(
        prompt,
        "Translate the following text from English to Japanese. Only provide the translation without any explanations or additional text:\n\nGood morning, \"friend\"\n"
    );
}

#[test]
fn request_targets_generate_endpoint() {
    let client = OllamaClient::new();
    let req = client.translate_request(&request("hi", "English", "Spanish"));
    assert_eq!(req.method, Method::Post);
    assert_eq!(req.url, "http://localhost:11434/api/generate");
    assert_eq!(req.timeout_secs, DEFAULT_TIMEOUT_SECS);
    let body: serde_json::Value = serde_json::from_str(req.body.as_deref().unwrap()).unwrap();
    assert_eq!(body["model"], "qwen2.5:3b");
    assert_eq!(body["stream"], false);
    assert_eq!(body["options"]["temperature"].as_f64(), Some(0.3));
    assert_eq!(body["options"]["top_p"].as_f64(), Some(0.9));
    assert!(body["options"].get("num_predict").is_none());
}

#[test]
fn document_request_is_exact() {
    let client = OllamaClient::for_documents("http://h:1".to_string(), "m\"x".to_string());
    let req = client.translate_request(&request("# T", "English", "French"));
    assert_eq!(req.url, "http://h:1/api/generate");
    assert_eq!(
        req.body.unwrap(),
        "{\"model\":\"m\\\"x\",\"prompt\":\"Translate the following markdown document from English to French. Preserve all markdown formatting, code blocks, links, and structure. Only provide the translated content without explanations:\\n\\n# T\",\"stream\":false,\"options\":{\"temperature\":0.3,\"top_p\":0.9,\"num_predict\":4096}}"
    );
    assert_eq!(DOCUMENT_NUM_PREDICT, 4096);
}

#[test]
fn reply_is_trimmed() {
    let r = translate_outcome(&replied(200, "{\"response\": \"  hola  \"}")).unwrap();
    assert_eq!(r.translated_text, "hola");
    let again = translation_from_reply(Some(r.translated_text.clone())).unwrap();
    assert_eq!(again.translated_text, "hola");
}

#[test]
fn server_error_is_upstream() {
    match translate_outcome(&replied(500, "{\"response\": \"hola\"}")) {
        Err(ClientError::Upstream(s)) => assert_eq!(s, 500),
        other => panic!("unexpected {:?}", other),
    }
}

#[test]
fn no_reply_is_transport() {
    match translate_outcome(&HttpOutcome::Failed("operation timed out".to_string())) {
        Err(ClientError::Transport(m)) => assert_eq!(m, "operation timed out"),
        other => panic!("unexpected {:?}", other),
    }
}

#[test]
fn malformed_reply_is_format_error() {
    assert!(matches!(translate_outcome(&replied(200, "not json")), Err(ClientError::ResponseFormat)));
    assert!(matches!(translate_outcome(&replied(200, "{\"other\": 1}")), Err(ClientError::ResponseFormat)));
    assert!(matches!(translate_outcome(&replied(200, "{\"response\": 3}")), Err(ClientError::ResponseFormat)));
    assert!(matches!(translation_from_reply(None), Err(ClientError::ResponseFormat)));
}

#[test]
fn health_lists_models_in_order() {
    let body = "{\"models\":[{\"name\":\"qwen2.5:3b\"},{\"name\":\"llama3\"}]}";
    let h = health_status(&replied(200, body));
    assert!(h.reachable);
    assert_eq!(h.models, vec!["qwen2.5:3b".to_string(), "llama3".to_string()]);
    let d = diagnose_health(&replied(200, body)).unwrap();
    assert_eq!(d, Some(vec!["qwen2.5:3b".to_string(), "llama3".to_string()]));
}

#[test]
fn health_unreachable_is_false() {
    let h = health_status(&HttpOutcome::Failed("connection refused".to_string()));
    assert!(!h.reachable);
    assert!(h.models.is_empty());
    assert!(matches!(
        diagnose_health(&HttpOutcome::Failed("connection refused".to_string())),
        Err(ClientError::Transport(_))
    ));
}

#[test]
fn health_error_status() {
    let h = health_status(&replied(503, ""));
    assert!(!h.reachable);
    assert!(matches!(diagnose_health(&replied(503, "")), Err(ClientError::Upstream(503))));
}

#[test]
fn health_skips_nameless_entries() {
    let body = "{\"models\":[{\"name\":\"a\"},{\"size\":3},{\"name\":7},{\"name\":\"b\"}]}";
    assert_eq!(
        diagnose_health(&replied(200, body)).unwrap(),
        Some(vec!["a".to_string(), "b".to_string()])
    );
    assert_eq!(diagnose_health(&replied(200, "{}")).unwrap(), None);
    assert_eq!(diagnose_health(&replied(200, "{\"models\": 3}")).unwrap(), None);
    assert_eq!(diagnose_health(&replied(200, "{\"models\": []}")).unwrap(), Some(Vec::new()));
    let h = health_status(&replied(200, "{}"));
    assert!(h.reachable);
    assert!(h.models.is_empty());
    assert!(matches!(diagnose_health(&replied(200, "<html>")), Err(ClientError::ResponseFormat)));
    let h = health_status(&replied(200, "<html>"));
    assert!(h.reachable);
    assert!(h.models.is_empty());
}

#[test]
fn names_keep_order() {
    let e = Some(Some(vec![None, Some("x".to_string()), Some("y".to_string()), None]));
    assert_eq!(names_from_entries(e).unwrap(), Some(vec!["x".to_string(), "y".to_string()]));
    assert_eq!(names_from_entries(Some(None)).unwrap(), None);
    assert!(matches!(names_from_entries(None), Err(ClientError::ResponseFormat)));
}

#[test]
fn empty_text_builds_request() {
    let client = OllamaClient::new();
    let req = client.translate_request(&request("", "English", "German"));
    let body: serde_json::Value = serde_json::from_str(req.body.as_deref().unwrap()).unwrap();
    let prompt = body["prompt"].as_str().unwrap();
    assert!(prompt.ends_with("additional text:\n\n"));
    let r = translate_outcome(&replied(200, "{\"response\": \"\"}")).unwrap();
    assert_eq!(r.translated_text, "");
}

#[test]
fn health_request_is_exact() {
    let client = OllamaClient::for_documents("http://10.0.0.2:11434".to_string(), "llama3".to_string());
    let req = client.health_request();
    assert_eq!(req.method, Method::Get);
    assert_eq!(req.url, "http://10.0.0.2:11434/api/tags");
    assert!(req.body.is_none());
    assert_eq!(req.timeout_secs, HEALTH_TIMEOUT_SECS);
    assert_eq!(HEALTH_TIMEOUT_SECS, 5);
}

#[test]
fn success_class_bounds() {
    assert!(!status_is_success(199));
    assert!(status_is_success(200));
    assert!(status_is_success(299));
    assert!(!status_is_success(300));
}

#[test]
fn client_defaults() {
    let c = OllamaClient::new();
    assert_eq!(c.base_url, "http://localhost:11434");
    assert_eq!(c.model, "qwen2.5:3b");
    assert_eq!(c.style, PromptStyle::Text);
    assert_eq!(c.num_predict, None);
    assert_eq!(c.timeout_secs, 300);
}
