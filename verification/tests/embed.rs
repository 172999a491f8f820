use memso::embed::{first_result, json_array, EmbedError, DIMS};

#[test]
fn floats_to_json_format() {
    let floats = vec![1.0f32, 2.0f32, -3.5f32];
    let items: Vec<String> = floats.iter().map(|f| f.to_string()).collect();
    let json = json_array(&items);
    assert_eq!(json, "[1,2,-3.5]");
}

#[test]
fn json_array_of_nothing_is_empty_brackets() {
    assert_eq!(json_array(&Vec::new()), "[]");
}

#[test]
fn json_array_of_one_item_has_no_separator() {
    assert_eq!(json_array(&vec!["0.25".to_string()]), "[0.25]");
}

#[test]
fn first_result_takes_the_first_embedding() {
    let r = first_result(vec![vec![1u8, 2], vec![3u8]]);
    assert_eq!(r, Ok(vec![1u8, 2]));
}

#[test]
fn first_result_of_no_embedding_is_an_error() {
    let r: Result<Vec<u8>, EmbedError> = first_result(Vec::new());
    assert_eq!(r, Err(EmbedError::NoResult));
}

#[test]
fn embed_error_messages() {
    assert_eq!(EmbedError::LoadFailed.message(), "Failed to load embedding model");
    assert_eq!(EmbedError::EmbedFailed.message(), "Embedding failed");
    assert_eq!(EmbedError::NoResult.message(), "Embedding model returned no results");
}

#[test]
fn embeddings_have_384_dimensions() {
    assert_eq!(DIMS, 384);
}
