use vstd::prelude::*;

verus! {

/// One highlighted token, as the highlighting engine hands it back: its byte
/// length in the source text and its foreground color.
#[derive(Clone, Copy, Debug)]
pub struct Token {
    pub len: usize,
    pub red: u8,
    pub green: u8,
    pub blue: u8,
}

/// One colored span of the source text, addressed by byte offsets.
#[derive(Clone, Copy, Debug)]
pub struct HighlightSpan {
    pub start: usize,
    pub end: usize,
    pub red: u8,
    pub green: u8,
    pub blue: u8,
}

/// The color a span falls back to when the engine cannot highlight the text.
pub const FALLBACK_GRAY: u8 = 192;

/// The spans tile the text's bytes: each starts where the one before it
/// ended, the first at offset zero, the last ending at the text's length.
pub open spec fn spans_tile(spans: Seq<HighlightSpan>, total: nat) -> bool {
    &&& forall|i: int|
        0 <= i < spans.len() ==> {
            &&& (#[trigger] spans[i]).start == if i == 0 {
                0int
            } else {
                spans[i - 1].end as int
            }
            &&& spans[i].start <= spans[i].end
            &&& spans[i].end <= total
        }
    &&& if spans.len() == 0 {
        total == 0
    } else {
        spans[spans.len() - 1].end == total
    }
}

/// Each span carries over its token: the span is as long as the token's
/// byte length and wears the token's color.
pub open spec fn spans_match_tokens(spans: Seq<HighlightSpan>, tokens: Seq<Token>) -> bool {
    &&& spans.len() == tokens.len()
    &&& forall|i: int|
        0 <= i < spans.len() ==> {
            &&& (#[trigger] spans[i]).end - spans[i].start == tokens[i].len
            &&& spans[i].red == tokens[i].red
            &&& spans[i].green == tokens[i].green
            &&& spans[i].blue == tokens[i].blue
        }
}

/// The sum of the tokens' byte lengths.
pub open spec fn sum_lens(tokens: Seq<Token>) -> int
    decreases tokens.len(),
{
    if tokens.len() == 0 {
        0
    } else {
        sum_lens(tokens.drop_last()) + tokens.last().len
    }
}

proof fn lemma_sum_lens_step(tokens: Seq<Token>, i: int)
    requires
        0 <= i < tokens.len(),
    ensures
        sum_lens(tokens.take(i + 1)) == sum_lens(tokens.take(i)) + tokens[i].len,
{
    assert(tokens.take(i + 1).drop_last() =~= tokens.take(i));
    assert(tokens.take(i + 1).last() == tokens[i]);
}

proof fn lemma_sum_lens_prefix_bound(tokens: Seq<Token>, i: int)
    requires
        0 <= i <= tokens.len(),
    ensures
        sum_lens(tokens.take(i)) <= sum_lens(tokens),
    decreases tokens.len() - i,
{
    if i == tokens.len() {
        assert(tokens.take(i) =~= tokens);
    } else {
        lemma_sum_lens_step(tokens, i);
        lemma_sum_lens_prefix_bound(tokens, i + 1);
    }
}

/// The byte range that a piece of the given length occupies at the given
/// offset of a text of whole_len bytes: its start and its end.
pub fn as_byte_range(offset: usize, len: usize, whole_len: usize) -> (r: (usize, usize))
    requires
        offset + len <= whole_len,
    ensures
        r.0 == offset,
        r.1 == offset + len,
{
    (offset, offset + len)
}

/// Lay the tokens end to end from the start of a text of `total` bytes.
/// This succeeds exactly when the tokens' byte lengths add up to the whole
/// text, and the spans then tile the text and carry the tokens' colors.
pub fn assemble_spans(tokens: &Vec<Token>, total: usize) -> (r: Option<Vec<HighlightSpan>>)
    ensures
        r is Some <==> sum_lens(tokens@) == total,
        r matches Some(spans) ==> spans_match_tokens(spans@, tokens@) && spans_tile(
            spans@,
            total as nat,
        ),
{
    let mut spans: Vec<HighlightSpan> = Vec::new();
    let mut offset: usize = 0;
    let mut i: usize = 0;
    proof {
        assert(tokens@.take(0) =~= Seq::<Token>::empty());
    }
    while i < tokens.len()
        invariant
            i <= tokens@.len(),
            offset <= total,
            offset == sum_lens(tokens@.take(i as int)),
            spans_match_tokens(spans@, tokens@.take(i as int)),
            spans@.len() == i,
            forall|k: int|
                0 <= k < spans@.len() ==> {
                    &&& (#[trigger] spans@[k]).start == if k == 0 {
                        0int
                    } else {
                        spans@[k - 1].end as int
                    }
                    &&& spans@[k].start <= spans@[k].end
                    &&& spans@[k].end <= total
                },
            i > 0 ==> spans@[i - 1].end == offset,
            i == 0 ==> offset == 0,
        decreases tokens@.len() - i,
    {
        let t = tokens[i];
        proof {
            lemma_sum_lens_step(tokens@, i as int);
        }
        if t.len > total - offset {
            proof {
                lemma_sum_lens_prefix_bound(tokens@, i + 1);
            }
            return None;
        }
        let range = as_byte_range(offset, t.len, total);
        spans.push(
            HighlightSpan { start: range.0, end: range.1, red: t.red, green: t.green, blue: t.blue },
        );
        offset = range.1;
        i = i + 1;
    }
    proof {
        assert(tokens@.take(i as int) =~= tokens@);
    }
    if offset == total {
        Some(spans)
    } else {
        None
    }
}

/// A single plain-colored span covering the whole text, or no span at all
/// when the text is empty.
pub fn fallback_spans(total: usize) -> (r: Vec<HighlightSpan>)
    ensures
        spans_tile(r@, total as nat),
        total == 0 ==> r@.len() == 0,
        total > 0 ==> r@.len() == 1 && r@[0] == (HighlightSpan {
            start: 0,
            end: total,
            red: FALLBACK_GRAY,
            green: FALLBACK_GRAY,
            blue: FALLBACK_GRAY,
        }),
{
    let mut r: Vec<HighlightSpan> = Vec::new();
    if total > 0 {
        r.push(
            HighlightSpan {
                start: 0,
                end: total,
                red: FALLBACK_GRAY,
                green: FALLBACK_GRAY,
                blue: FALLBACK_GRAY,
            },
        );
    }
    r
}

/// Relies on syntect's SyntaxSet::load_defaults_newlines for the bundled
/// syntax definitions.
#[verifier::external_body]
fn default_syntax_set() -> syntect::parsing::SyntaxSet {
    syntect::parsing::SyntaxSet::load_defaults_newlines()
}

/// Relies on syntect's ThemeSet::load_defaults for the bundled color themes.
#[verifier::external_body]
fn default_theme_set() -> syntect::highlighting::ThemeSet {
    syntect::highlighting::ThemeSet::load_defaults()
}

/// Relies on syntect: HighlightLines::highlight_line splits each line of the
/// text into styled pieces, and each piece is handed back as its byte length
/// and foreground color. None when the language, the theme, or a line defeats
/// the engine; nothing further is assumed of the pieces, the caller checks
/// that they tile the text.
#[verifier::external_body]
fn styled_tokens(
    syntax_set: &syntect::parsing::SyntaxSet,
    theme_set: &syntect::highlighting::ThemeSet,
    code: &str,
    lang: &str,
) -> Option<Vec<Token>> {
    let syntax = syntax_set.find_syntax_by_extension(lang)?;
    let theme = theme_set.themes.get("base16-ocean.dark")?;
    let mut h = syntect::easy::HighlightLines::new(syntax, theme);
    let mut out: Vec<Token> = Vec::new();
    for line in syntect::util::LinesWithEndings::from(code) {
        for (style, piece) in h.highlight_line(line, syntax_set).ok()? {
            let fg = style.foreground;
            out.push(Token { len: piece.len(), red: fg.r, green: fg.g, blue: fg.b });
        }
    }
    Some(out)
}

#[verifier::external_type_specification]
#[verifier::external_body]
pub struct ExSyntaxSet(syntect::parsing::SyntaxSet);

#[verifier::external_type_specification]
#[verifier::external_body]
pub struct ExThemeSet(syntect::highlighting::ThemeSet);

/// A cached pair of syntax definitions and color themes.
pub struct Highlighter {
    syntax_set: syntect::parsing::SyntaxSet,
    theme_set: syntect::highlighting::ThemeSet,
}

impl Highlighter {
    /// A highlighter over the engine's bundled syntax definitions and themes.
    pub fn new() -> Highlighter {
        Highlighter { syntax_set: default_syntax_set(), theme_set: default_theme_set() }
    }

    /// Highlight `code` as `lang`: colored spans that tile the text's bytes
    /// from start to end. Where the engine cannot highlight the text, the
    /// whole text becomes one plain span.
    pub fn highlight(&self, code: &str, lang: &str) -> (r: Vec<HighlightSpan>)
        ensures
            spans_tile(r@, code.len() as nat),
    {
        let total = code.len();
        if let Some(tokens) = styled_tokens(&self.syntax_set, &self.theme_set, code, lang) {
            if let Some(spans) = assemble_spans(&tokens, total) {
                return spans;
            }
        }
        fallback_spans(total)
    }
}

} // verus!
