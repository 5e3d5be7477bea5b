use cgraph::RenderError;
use cgraph::accept_parse;
use cgraph::validate_graph_text;

#[test]
fn validate_accepts_digraph_description() {
    let text: Vec<u8> = b"digraph testgraph { A -> B }".to_vec();
    assert_eq!(validate_graph_text(&text), Ok(()));
}

#[test]
fn validate_accepts_empty_undirected_description() {
    let text: Vec<u8> = b"graph testgraph {\n\n}".to_vec();
    assert_eq!(validate_graph_text(&text), Ok(()));
}

#[test]
fn validate_accepts_empty_buffer() {
    let text: Vec<u8> = Vec::new();
    assert_eq!(validate_graph_text(&text), Ok(()));
}

#[test]
fn validate_rejects_embedded_terminator() {
    let text: Vec<u8> = b"digraph g { A -\0> B }".to_vec();
    assert_eq!(validate_graph_text(&text), Err(RenderError::ParseError));
}

#[test]
fn validate_rejects_terminator_at_end() {
    let text: Vec<u8> = vec![0u8];
    assert_eq!(validate_graph_text(&text), Err(RenderError::ParseError));
}

#[test]
fn accept_parse_rejects_null_handle() {
    assert_eq!(accept_parse(true), Err(RenderError::ParseError));
}

#[test]
fn accept_parse_takes_live_handle() {
    assert_eq!(accept_parse(false), Ok(()));
}
