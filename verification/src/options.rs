//! The options that the engines hand to the `llama.cpp` backend, and their
//! JSON text as `serde_json` writes it.

use vstd::prelude::*;

verus! {

/// A JSON scalar of the options: a boolean or an unsigned number.
#[derive(Debug, Clone, Copy, PartialEq, Eq, Structural)]
pub enum JsonScalar {
    Bool(bool),
    Unsigned(u64),
}

/// The text that `serde_json` writes for the JSON object with these entries,
/// inserted into a `serde_json::Map` in order.
pub uninterp spec fn json_object_text(entries: Seq<(Seq<char>, JsonScalar)>) -> Seq<char>;

/// The entries as plain values.
pub open spec fn entries_view(entries: Seq<(String, JsonScalar)>) -> Seq<(Seq<char>, JsonScalar)> {
    entries.map_values(|e: (String, JsonScalar)| (e.0@, e.1))
}

/// Collects the entries into a `serde_json::Map` and writes
/// `serde_json::Value::Object(map).to_string()`. The text is named, not
/// stated: its key order depends on how `serde_json` is built
/// (`preserve_order`).
#[verifier::external_body]
fn serde_json_object_text(entries: &Vec<(String, JsonScalar)>) -> (s: String)
    ensures
        s@ == json_object_text(entries_view(entries@)),
{
    let map: serde_json::Map<String, serde_json::Value> = entries.iter().map(
        |(k, v)| match v {
            JsonScalar::Bool(b) => (k.clone(), serde_json::Value::Bool(*b)),
            JsonScalar::Unsigned(n) => (k.clone(), serde_json::Value::from(*n)),
        },
    ).collect();
    serde_json::Value::Object(map).to_string()
}

/// Backend options: whether to stream to stdout and log, the context size,
/// how many tokens to predict and how many layers to offload to the GPU.
#[derive(Debug, Clone, Copy, PartialEq, Eq, Structural)]
pub struct EngineOptions {
    pub stream_stdout: bool,
    pub enable_log: bool,
    pub ctx_size: u64,
    pub n_predict: u64,
    pub n_gpu_layers: u64,
}

/// The JSON entries of the options, in the order the engines write them.
pub open spec fn spec_option_entries(o: EngineOptions) -> Seq<(Seq<char>, JsonScalar)> {
    seq![
        ("stream-stdout"@, JsonScalar::Bool(o.stream_stdout)),
        ("enable-log"@, JsonScalar::Bool(o.enable_log)),
        ("ctx-size"@, JsonScalar::Unsigned(o.ctx_size)),
        ("n-predict"@, JsonScalar::Unsigned(o.n_predict)),
        ("n-gpu-layers"@, JsonScalar::Unsigned(o.n_gpu_layers)),
    ]
}

/// The JSON text of the options.
pub open spec fn spec_options_json(o: EngineOptions) -> Seq<char> {
    json_object_text(spec_option_entries(o))
}

impl EngineOptions {
    /// The JSON entries of the options.
    pub fn entries(&self) -> (e: Vec<(String, JsonScalar)>)
        ensures
            entries_view(e@) == spec_option_entries(*self),
    {
        let mut e: Vec<(String, JsonScalar)> = Vec::new();
        e.push((String::from_str("stream-stdout"), JsonScalar::Bool(self.stream_stdout)));
        e.push((String::from_str("enable-log"), JsonScalar::Bool(self.enable_log)));
        e.push((String::from_str("ctx-size"), JsonScalar::Unsigned(self.ctx_size)));
        e.push((String::from_str("n-predict"), JsonScalar::Unsigned(self.n_predict)));
        e.push((String::from_str("n-gpu-layers"), JsonScalar::Unsigned(self.n_gpu_layers)));
        assert(entries_view(e@) =~= spec_option_entries(*self));
        e
    }

    /// The options as the JSON object that the backend reads.
    pub fn to_json(&self) -> (s: String)
        ensures
            s@ == spec_options_json(*self),
    {
        serde_json_object_text(&self.entries())
    }
}

} // verus!
