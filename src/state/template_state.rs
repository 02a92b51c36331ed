//! The untyped state container that crosses process boundaries: JSON text,
//! typed only where a template reads it.
use vstd::prelude::*;

verus! {

/// The JSON text `null`, which stands for "no state".
pub open spec fn null_text() -> Seq<char> {
    seq!['n', 'u', 'l', 'l']
}

/// What `s` becomes when parsed as a JSON value and written back compactly;
/// `None` where `s` is not JSON.
pub uninterp spec fn json_reencoded(s: Seq<char>) -> Option<Seq<char>>;

/// Relies on `serde_json::from_str::<serde_json::Value>` and on the
/// `Display` of `serde_json::Value`: the text is parsed, then written back
/// compactly. `null` parses as `Value::Null`, which is written as `null`.
#[verifier::external_body]
fn reencode_json(s: &str) -> (r: Result<String, serde_json::Error>)
    ensures
        match r {
            Ok(t) => json_reencoded(s@) == Some(t@),
            Err(_) => json_reencoded(s@) is None,
        },
        s@ == null_text() ==> (r is Ok && r->Ok_0@ == null_text()),
{
    serde_json::from_str::<serde_json::Value>(s).map(|v| v.to_string())
}

/// A state value with no type attached, held as compact JSON text.
#[derive(Debug)]
pub struct TemplateState {
    state: String,
}

impl View for TemplateState {
    type V = Seq<char>;

    closed spec fn view(&self) -> Seq<char> {
        self.state@
    }
}

impl Clone for TemplateState {
    fn clone(&self) -> (r: TemplateState)
        ensures
            r == *self,
    {
        TemplateState { state: self.state.clone() }
    }
}

impl TemplateState {
    /// The state of a template that takes none.
    pub fn empty() -> (r: TemplateState)
        ensures
            r@ == null_text(),
    {
        proof {
            reveal_strlit("null");
        }
        let r = TemplateState { state: String::from_str("null") };
        assert(r@ =~= null_text());
        r
    }

    /// Whether this is the empty state.
    pub fn is_empty(&self) -> (r: bool)
        ensures
            r == (self@ == null_text()),
    {
        let null = String::from_str("null");
        proof {
            reveal_strlit("null");
        }
        assert(null@ =~= null_text());
        self.state == null
    }

    /// Reads state off the wire. Fails where `s` is not JSON.
    pub fn from_str(s: &str) -> (r: Result<TemplateState, serde_json::Error>)
        ensures
            match r {
                Ok(t) => json_reencoded(s@) == Some(t@),
                Err(_) => json_reencoded(s@) is None,
            },
            s@ == null_text() ==> (r is Ok && r->Ok_0@ == null_text()),
    {
        match reencode_json(s) {
            Ok(text) => Ok(TemplateState { state: text }),
            Err(e) => Err(e),
        }
    }

    /// The state as compact JSON text.
    pub fn as_json(&self) -> (r: &str)
        ensures
            r@ == self@,
    {
        self.state.as_str()
    }
}

} // verus!
