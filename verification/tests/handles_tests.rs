use chat_gateway::endpoints::{
    chat_endpoint, completions_endpoint, generate_endpoint, pull_endpoint,
    remote_models_endpoint, tags_endpoint, trim_base,
};
use chat_gateway::handles::{
    chat_stream_handle, fresh_chat_handle, fresh_pull_handle, pull_stream_handle, u64_decimal,
};

#[test]
fn decimal_rendering_is_exact() {
    assert_eq!(u64_decimal(0), "0");
    assert_eq!(u64_decimal(7), "7");
    assert_eq!(u64_decimal(10), "10");
    assert_eq!(u64_decimal(1234567890), "1234567890");
    assert_eq!(u64_decimal(u64::MAX), "18446744073709551615");
}

#[test]
fn handles_are_prefix_and_clock_digits() {
    assert_eq!(chat_stream_handle(42), "stream-42");
    assert_eq!(pull_stream_handle(42), "pull-42");
}

#[test]
fn fresh_handles_carry_a_numeric_suffix() {
    let h = fresh_chat_handle();
    let digits = h.strip_prefix("stream-").expect("the chat prefix");
    digits.parse::<u64>().expect("a decimal clock reading");
    let p = fresh_pull_handle();
    let digits = p.strip_prefix("pull-").expect("the pull prefix");
    digits.parse::<u64>().expect("a decimal clock reading");
}

#[test]
fn base_trimming_removes_only_trailing_slashes() {
    assert_eq!(trim_base("http://x:1/"), "http://x:1");
    assert_eq!(trim_base("http://x:1///"), "http://x:1");
    assert_eq!(trim_base("http://x:1"), "http://x:1");
    assert_eq!(trim_base(""), "");
    assert_eq!(trim_base("///"), "");
}

#[test]
fn endpoints_are_fixed_paths_on_the_trimmed_base() {
    assert_eq!(tags_endpoint("http://x/"), "http://x/api/tags");
    assert_eq!(chat_endpoint("http://x/"), "http://x/api/chat");
    assert_eq!(generate_endpoint("http://x"), "http://x/api/generate");
    assert_eq!(pull_endpoint("http://x"), "http://x/api/pull");
    assert_eq!(completions_endpoint("https://y/"), "https://y/chat/completions");
    assert_eq!(remote_models_endpoint("https://y"), "https://y/v1/models");
}
