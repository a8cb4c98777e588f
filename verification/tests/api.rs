use inference_runtime::api::{
    bearer, deepseek_endpoint, deepseek_model, llamacpp_endpoint, local_model_name,
    openai_endpoint, sampling_counts,
};

#[test]
fn deepseek_endpoint_defaults_to_the_service() {
    assert_eq!(deepseek_endpoint(""), "https://api.deepseek.com/chat/completions");
    assert_eq!(deepseek_endpoint(" \n"), "https://api.deepseek.com/chat/completions");
    assert_eq!(deepseek_endpoint(" https://proxy/v1/chat "), "https://proxy/v1/chat");
}

#[test]
fn deepseek_model_defaults_to_chat() {
    assert_eq!(deepseek_model(""), "deepseek-chat");
    assert_eq!(deepseek_model("  "), "deepseek-chat");
    assert_eq!(deepseek_model("deepseek-coder"), "deepseek-coder");
    assert_eq!(deepseek_model(" padded "), " padded ");
}

#[test]
fn openai_endpoint_is_the_completions_path() {
    assert_eq!(openai_endpoint("https://api.openai.com/v1"), "https://api.openai.com/v1/chat/completions");
    assert_eq!(openai_endpoint("https://api.openai.com/v1//"), "https://api.openai.com/v1/chat/completions");
    assert_eq!(openai_endpoint(""), "/chat/completions");
}

#[test]
fn blank_key_sends_no_authorization() {
    assert_eq!(bearer(""), None);
    assert_eq!(bearer("  \t"), None);
    assert_eq!(bearer("abc"), Some("Bearer abc".to_string()));
    assert_eq!(bearer(" abc "), Some("Bearer  abc ".to_string()));
}

#[test]
fn local_server_is_asked_on_loopback() {
    assert_eq!(llamacpp_endpoint(8080), "http://127.0.0.1:8080/v1/chat/completions");
    assert_eq!(llamacpp_endpoint(0), "http://127.0.0.1:0/v1/chat/completions");
    assert_eq!(llamacpp_endpoint(65535), "http://127.0.0.1:65535/v1/chat/completions");
}

#[test]
fn local_model_name_falls_back_to_a_placeholder() {
    assert_eq!(local_model_name(None), "local-model");
    assert_eq!(local_model_name(Some("")), "local-model");
    assert_eq!(local_model_name(Some("  ")), "local-model");
    assert_eq!(local_model_name(Some(" org/repo:Q8_0 ")), "org/repo:Q8_0");
}

#[test]
fn sampling_counts_have_defaults() {
    let c = sampling_counts(None, None, None);
    assert_eq!((c.top_k, c.max_tokens, c.repeat_last_n), (40, -1, 64));
    let c = sampling_counts(Some(1), Some(2), Some(3));
    assert_eq!((c.top_k, c.max_tokens, c.repeat_last_n), (1, 2, 3));
}
