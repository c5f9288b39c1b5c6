use vstd::prelude::*;

verus! {

/// Which of the three text panes holds the keyboard focus.
#[derive(Clone, Copy, PartialEq, Eq, Structural, Debug)]
pub enum Pane {
    Json,
    Toml,
    Yaml,
}

/// The application's state: one text buffer per format, and whether the
/// informational limitations window is open.
pub struct Converter {
    pub json: String,
    pub toml: String,
    pub yaml: String,
    pub limitations_window_open: bool,
}

// Whether the pane's text parses as a document of its format. Parsing is a
// function of the text alone, so the outcome gets a name; the wrappers below
// tie it to the parsers' answers.
pub uninterp spec fn json_parses(s: Seq<char>) -> bool;

pub uninterp spec fn toml_parses(s: Seq<char>) -> bool;

pub uninterp spec fn yaml_parses(s: Seq<char>) -> bool;

// What re-serializing a parsed document into another format yields: the
// serialized text, or the serializer's error message. Serialization is a
// function of the source text alone, so each outcome gets a name; the
// wrappers below tie them to the serializers' answers. Each name is defined
// only where the source text parses.
pub uninterp spec fn toml_of_json(s: Seq<char>) -> Result<Seq<char>, Seq<char>>;

pub uninterp spec fn yaml_of_json(s: Seq<char>) -> Result<Seq<char>, Seq<char>>;

pub uninterp spec fn json_of_toml(s: Seq<char>) -> Result<Seq<char>, Seq<char>>;

pub uninterp spec fn yaml_of_toml(s: Seq<char>) -> Result<Seq<char>, Seq<char>>;

pub uninterp spec fn json_of_yaml(s: Seq<char>) -> Result<Seq<char>, Seq<char>>;

pub uninterp spec fn toml_of_yaml(s: Seq<char>) -> Result<Seq<char>, Seq<char>>;

/// The view of a rendering outcome: the serialized text on success, the
/// serializer's message on failure.
pub open spec fn rendered_view(r: Result<String, String>) -> Result<Seq<char>, Seq<char>> {
    match r {
        Ok(s) => Ok(s@),
        Err(e) => Err(e@),
    }
}

/// The text a destination pane shows for a rendering outcome: the serialized
/// document, or the error message in its place.
pub open spec fn shown_text(r: Result<Seq<char>, Seq<char>>) -> Seq<char> {
    match r {
        Ok(s) => s,
        Err(e) => e,
    }
}

/// Relies on serde_json::from_str::<serde_json::Value> to parse the JSON
/// pane, and on toml::to_string_pretty and serde_yaml::to_string to
/// re-serialize the parsed document; a failed serialization is carried over
/// as the error's message (its Display text).
#[verifier::external_body]
fn render_json(s: &str) -> (r: Option<(Result<String, String>, Result<String, String>)>)
    ensures
        r is Some <==> json_parses(s@),
        r matches Some(p) ==> rendered_view(p.0) == toml_of_json(s@),
        r matches Some(p) ==> rendered_view(p.1) == yaml_of_json(s@),
{
    let value: serde_json::Value = serde_json::from_str(s).ok()?;
    let t = match toml::to_string_pretty(&value) {
        Ok(text) => Ok(text),
        Err(err) => Err(err.to_string()),
    };
    let y = match serde_yaml::to_string(&value) {
        Ok(text) => Ok(text),
        Err(err) => Err(err.to_string()),
    };
    Some((t, y))
}

/// Relies on toml::from_str::<toml::Value> to parse the TOML pane, and on
/// serde_json::to_string_pretty and serde_yaml::to_string to re-serialize
/// the parsed document; a failed serialization is carried over as the
/// error's message (its Display text).
#[verifier::external_body]
fn render_toml(s: &str) -> (r: Option<(Result<String, String>, Result<String, String>)>)
    ensures
        r is Some <==> toml_parses(s@),
        r matches Some(p) ==> rendered_view(p.0) == json_of_toml(s@),
        r matches Some(p) ==> rendered_view(p.1) == yaml_of_toml(s@),
{
    let value: toml::Value = toml::from_str(s).ok()?;
    let j = match serde_json::to_string_pretty(&value) {
        Ok(text) => Ok(text),
        Err(err) => Err(err.to_string()),
    };
    let y = match serde_yaml::to_string(&value) {
        Ok(text) => Ok(text),
        Err(err) => Err(err.to_string()),
    };
    Some((j, y))
}

/// Relies on serde_yaml::from_str::<serde_yaml::Value> to parse the YAML
/// pane, and on serde_json::to_string_pretty and toml::to_string_pretty to
/// re-serialize the parsed document; a failed serialization is carried over
/// as the error's message (its Display text).
#[verifier::external_body]
fn render_yaml(s: &str) -> (r: Option<(Result<String, String>, Result<String, String>)>)
    ensures
        r is Some <==> yaml_parses(s@),
        r matches Some(p) ==> rendered_view(p.0) == json_of_yaml(s@),
        r matches Some(p) ==> rendered_view(p.1) == toml_of_yaml(s@),
{
    let value: serde_yaml::Value = serde_yaml::from_str(s).ok()?;
    let j = match serde_json::to_string_pretty(&value) {
        Ok(text) => Ok(text),
        Err(err) => Err(err.to_string()),
    };
    let t = match toml::to_string_pretty(&value) {
        Ok(text) => Ok(text),
        Err(err) => Err(err.to_string()),
    };
    Some((j, t))
}

/// The text a destination pane receives: the serialized document on success,
/// the serializer's error message in its place on failure.
pub fn shown(r: Result<String, String>) -> (t: String)
    ensures
        t@ == shown_text(rendered_view(r)),
{
    match r {
        Ok(s) => s,
        Err(e) => e,
    }
}

impl Converter {
    /// A converter with three empty panes and the limitations window closed.
    pub fn new() -> (c: Converter)
        ensures
            c.json@ == Seq::<char>::empty(),
            c.toml@ == Seq::<char>::empty(),
            c.yaml@ == Seq::<char>::empty(),
            !c.limitations_window_open,
    {
        Converter {
            json: String::new(),
            toml: String::new(),
            yaml: String::new(),
            limitations_window_open: false,
        }
    }

    /// A converter rebuilt from persisted pane texts. The limitations window
    /// always starts closed, whatever was persisted.
    pub fn restored(json: String, toml: String, yaml: String) -> (c: Converter)
        ensures
            c.json@ == json@,
            c.toml@ == toml@,
            c.yaml@ == yaml@,
            !c.limitations_window_open,
    {
        Converter { json, toml, yaml, limitations_window_open: false }
    }

    /// Open the limitations window; the pane texts are untouched.
    pub fn open_limitations(&mut self)
        ensures
            final(self).limitations_window_open,
            final(self).json@ == old(self).json@,
            final(self).toml@ == old(self).toml@,
            final(self).yaml@ == old(self).yaml@,
    {
        self.limitations_window_open = true;
    }

    /// Close the limitations window; the pane texts are untouched.
    pub fn close_limitations(&mut self)
        ensures
            !final(self).limitations_window_open,
            final(self).json@ == old(self).json@,
            final(self).toml@ == old(self).toml@,
            final(self).yaml@ == old(self).yaml@,
    {
        self.limitations_window_open = false;
    }

    /// One conversion step, run every frame: the focused pane is
    /// authoritative. If its text parses, the other two panes are overwritten
    /// with the re-serialized document, or with the serializer's error
    /// message in place of it; if it does not parse, or no pane has focus,
    /// nothing changes.
    pub fn convert(&mut self, focus: Option<Pane>)
        ensures
            final(self).limitations_window_open == old(self).limitations_window_open,
            match focus {
                Some(Pane::Json) => {
                    &&& final(self).json@ == old(self).json@
                    &&& if json_parses(old(self).json@) {
                        &&& final(self).toml@ == shown_text(toml_of_json(old(self).json@))
                        &&& final(self).yaml@ == shown_text(yaml_of_json(old(self).json@))
                    } else {
                        &&& final(self).toml@ == old(self).toml@
                        &&& final(self).yaml@ == old(self).yaml@
                    }
                },
                Some(Pane::Toml) => {
                    &&& final(self).toml@ == old(self).toml@
                    &&& if toml_parses(old(self).toml@) {
                        &&& final(self).json@ == shown_text(json_of_toml(old(self).toml@))
                        &&& final(self).yaml@ == shown_text(yaml_of_toml(old(self).toml@))
                    } else {
                        &&& final(self).json@ == old(self).json@
                        &&& final(self).yaml@ == old(self).yaml@
                    }
                },
                Some(Pane::Yaml) => {
                    &&& final(self).yaml@ == old(self).yaml@
                    &&& if yaml_parses(old(self).yaml@) {
                        &&& final(self).json@ == shown_text(json_of_yaml(old(self).yaml@))
                        &&& final(self).toml@ == shown_text(toml_of_yaml(old(self).yaml@))
                    } else {
                        &&& final(self).json@ == old(self).json@
                        &&& final(self).toml@ == old(self).toml@
                    }
                },
                None => {
                    &&& final(self).json@ == old(self).json@
                    &&& final(self).toml@ == old(self).toml@
                    &&& final(self).yaml@ == old(self).yaml@
                },
            },
    {
        match focus {
            Some(Pane::Json) => {
                if let Some((t, y)) = render_json(self.json.as_str()) {
                    self.toml = shown(t);
                    self.yaml = shown(y);
                }
            },
            Some(Pane::Toml) => {
                if let Some((j, y)) = render_toml(self.toml.as_str()) {
                    self.json = shown(j);
                    self.yaml = shown(y);
                }
            },
            Some(Pane::Yaml) => {
                if let Some((j, t)) = render_yaml(self.yaml.as_str()) {
                    self.json = shown(j);
                    self.toml = shown(t);
                }
            },
            None => {},
        }
    }
}

} // verus!
