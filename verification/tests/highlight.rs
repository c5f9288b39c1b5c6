use json_toml_yaml::highlighter::{
    as_byte_range, assemble_spans, fallback_spans, Highlighter, HighlightSpan, Token,
    FALLBACK_GRAY,
};

fn token(len: usize, red: u8, green: u8, blue: u8) -> Token {
    Token { len, red, green, blue }
}

#[test]
fn byte_range_offsets() {
    let r = as_byte_range(3, 4, 10);
    assert_eq!(r, (3, 7));
    let r = as_byte_range(0, 0, 0);
    assert_eq!(r, (0, 0));
}

#[test]
fn assemble_lays_tokens_end_to_end() {
    let tokens = vec![token(2, 10, 20, 30), token(3, 40, 50, 60)];
    let spans = assemble_spans(&tokens, 5).unwrap();
    assert_eq!(spans.len(), 2);
    assert_eq!((spans[0].start, spans[0].end), (0, 2));
    assert_eq!((spans[0].red, spans[0].green, spans[0].blue), (10, 20, 30));
    assert_eq!((spans[1].start, spans[1].end), (2, 5));
    assert_eq!((spans[1].red, spans[1].green, spans[1].blue), (40, 50, 60));
}

#[test]
fn assemble_rejects_wrong_totals() {
    let tokens = vec![token(2, 0, 0, 0), token(3, 0, 0, 0)];
    assert!(assemble_spans(&tokens, 6).is_none());
    assert!(assemble_spans(&tokens, 4).is_none());
    assert!(assemble_spans(&tokens, 0).is_none());
}

#[test]
fn assemble_empty_token_list() {
    let tokens: Vec<Token> = Vec::new();
    assert_eq!(assemble_spans(&tokens, 0).unwrap().len(), 0);
    assert!(assemble_spans(&tokens, 1).is_none());
}

#[test]
fn fallback_is_one_plain_span() {
    assert_eq!(fallback_spans(0).len(), 0);
    let spans = fallback_spans(5);
    assert_eq!(spans.len(), 1);
    assert_eq!((spans[0].start, spans[0].end), (0, 5));
    assert_eq!(
        (spans[0].red, spans[0].green, spans[0].blue),
        (FALLBACK_GRAY, FALLBACK_GRAY, FALLBACK_GRAY)
    );
}

fn assert_tiles(spans: &[HighlightSpan], total: usize) {
    if total == 0 {
        assert!(spans.is_empty());
        return;
    }
    assert!(!spans.is_empty());
    assert_eq!(spans[0].start, 0);
    assert_eq!(spans[spans.len() - 1].end, total);
    for w in spans.windows(2) {
        assert_eq!(w[0].end, w[1].start);
    }
    for s in spans {
        assert!(s.start <= s.end);
    }
}

#[test]
fn highlight_json_tiles_the_text() {
    let h = Highlighter::new();
    let code = "{\"a\": [1, 2], \"b\": \"text\"}";
    let spans = h.highlight(code, "json");
    assert_tiles(&spans, code.len());
    // Real highlighting splits the text into more than one span; a
    // highlighter that ignored its input would hand back one span or none.
    assert!(spans.len() > 1);
}

#[test]
fn highlight_unknown_language_falls_back() {
    let h = Highlighter::new();
    let code = "plain text";
    let spans = h.highlight(code, "nosuchlang");
    assert_eq!(spans.len(), 1);
    assert_eq!((spans[0].start, spans[0].end), (0, code.len()));
    assert_eq!(spans[0].red, FALLBACK_GRAY);
}

#[test]
fn highlight_empty_text_has_no_spans() {
    let h = Highlighter::new();
    let spans = h.highlight("", "json");
    assert_eq!(spans.len(), 0);
}

#[test]
fn highlight_multiline_yaml_tiles_the_text() {
    let h = Highlighter::new();
    let code = "a: 1\nb:\n  - x\n  - y\n";
    let spans = h.highlight(code, "yaml");
    assert_tiles(&spans, code.len());
}
