use chat_gateway::chat::ChatError;
use chat_gateway::stream::{chunk_text, chat_emissions, event_channel};

fn concat(chunks: &[String]) -> String {
    chunks.iter().flat_map(|c| c.chars()).collect()
}

#[test]
fn chunking_boundary_lengths_reproduce_the_text() {
    for text in ["", "1234567", "12345678", "123456789", "1234567890123456"] {
        let chunks = chunk_text(text);
        assert_eq!(concat(&chunks), text, "length {}", text.len());
        for (i, c) in chunks.iter().enumerate() {
            if i + 1 < chunks.len() {
                assert_eq!(c.chars().count(), 8);
            } else {
                assert!(c.chars().count() >= 1 && c.chars().count() <= 8);
            }
        }
    }
}

#[test]
fn chunk_counts_around_the_batch_size() {
    assert_eq!(chunk_text("").len(), 0);
    assert_eq!(chunk_text("1234567").len(), 1);
    assert_eq!(chunk_text("12345678").len(), 1);
    assert_eq!(chunk_text("123456789").len(), 2);
    assert_eq!(chunk_text("1234567890123456").len(), 2);
}

#[test]
fn chunking_counts_characters_not_bytes() {
    let text = "ααααααααβ";
    let chunks = chunk_text(text);
    assert_eq!(chunks.len(), 2);
    assert_eq!(chunks[0], "αααααααα");
    assert_eq!(chunks[1], "β");
    assert_eq!(concat(&chunks), text);
}

#[test]
fn event_channel_is_name_colon_handle() {
    assert_eq!(event_channel("chat-chunk", "stream-42"), "chat-chunk:stream-42");
}

#[test]
fn successful_turn_emits_chunks_then_one_end() {
    let out = chat_emissions("stream-7", Ok("123456789".to_string()));
    assert_eq!(out.len(), 3);
    assert_eq!(out[0].channel, "chat-chunk:stream-7");
    assert_eq!(out[0].payload, "12345678");
    assert_eq!(out[1].channel, "chat-chunk:stream-7");
    assert_eq!(out[1].payload, "9");
    assert_eq!(out[2].channel, "chat-end:stream-7");
    assert_eq!(out[2].payload, "");
}

#[test]
fn empty_text_emits_only_the_end() {
    let out = chat_emissions("stream-7", Ok(String::new()));
    assert_eq!(out.len(), 1);
    assert_eq!(out[0].channel, "chat-end:stream-7");
}

#[test]
fn failed_turn_emits_exactly_one_error() {
    let out = chat_emissions(
        "stream-7",
        Err(ChatError::Empty { status: 500, body: "oops".to_string() }),
    );
    assert_eq!(out.len(), 1);
    assert_eq!(out[0].channel, "chat-error:stream-7");
    assert_eq!(out[0].payload, "empty response: status=500 body=oops");
}

#[test]
fn emission_concatenation_reproduces_long_text() {
    let text: String = (0..1000).map(|i| char::from(b'a' + (i % 26) as u8)).collect();
    let out = chat_emissions("s", Ok(text.clone()));
    let rebuilt: String = out[..out.len() - 1].iter().flat_map(|e| e.payload.chars()).collect();
    assert_eq!(rebuilt, text);
}
