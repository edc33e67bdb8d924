//! The persisted form of the stream state.
//!
//! The stream's state is stored under one fixed key in the node's settings
//! store, as a small JSON object. The store itself is an external
//! collaborator that only moves strings; this module owns the format: it
//! writes the canonical encoding and recognizes exactly the strings that
//! encoding produces.

use vstd::prelude::*;

use crate::stream::{orientation_name, Orientation, StreamState};

verus! {

/// The settings key the stream state is stored under.
pub fn stream_state_key() -> (r: &'static str)
    ensures
        r@ == "streamState"@,
{
    "streamState"
}

/// A boolean, as JSON writes it.
pub open spec fn bool_json(b: bool) -> Seq<char> {
    if b {
        "true"@
    } else {
        "false"@
    }
}

/// The canonical JSON encoding of a stream state.
pub open spec fn state_json(st: StreamState) -> Seq<char> {
    "{\"enabled\":"@ + bool_json(st.enabled) + ",\"orientation\":\""@ + orientation_name(
        st.orientation,
    ) + "\"}"@
}

/// Distinct stream states have distinct encodings: the states differ either
/// in `enabled` — then the encodings differ right after the first field's
/// name — or in orientation alone — then the orientation names, and with
/// them the encodings, have different lengths.
pub proof fn lemma_state_json_injective(a: StreamState, b: StreamState)
    requires
        state_json(a) == state_json(b),
    ensures
        a == b,
{
    reveal_strlit("{\"enabled\":");
    reveal_strlit(",\"orientation\":\"");
    reveal_strlit("\"}");
    reveal_strlit("true");
    reveal_strlit("false");
    reveal_strlit("landscape");
    reveal_strlit("portrait");
    reveal_strlit("invertedLandscape");
    reveal_strlit("invertedPortrait");
    let pre = "{\"enabled\":"@;
    assert(pre.len() == 11);
    assert("true"@.len() == 4 && "false"@.len() == 5);
    assert("landscape"@.len() == 9);
    assert("portrait"@.len() == 8);
    assert("invertedLandscape"@.len() == 17);
    assert("invertedPortrait"@.len() == 16);
    if a.enabled != b.enabled {
        assert(bool_json(a.enabled).len() >= 4 && bool_json(b.enabled).len() >= 4);
        assert(state_json(a)[11] == bool_json(a.enabled)[0]);
        assert(state_json(b)[11] == bool_json(b.enabled)[0]);
        assert(bool_json(true)[0] == 't');
        assert(bool_json(false)[0] == 'f');
    } else if a.orientation != b.orientation {
        assert(state_json(a).len() == 11 + bool_json(a.enabled).len() + 16 + orientation_name(
            a.orientation,
        ).len() + 2);
        assert(state_json(b).len() == 11 + bool_json(b.enabled).len() + 16 + orientation_name(
            b.orientation,
        ).len() + 2);
        assert(orientation_name(a.orientation).len() != orientation_name(b.orientation).len());
    }
}

/// Encodes a stream state in its canonical JSON form.
pub fn encode_stream_state(st: &StreamState) -> (r: String)
    ensures
        r@ == state_json(*st),
{
    let enabled = if st.enabled {
        "true"
    } else {
        "false"
    };
    String::from_str("{\"enabled\":").concat(enabled).concat(",\"orientation\":\"").concat(
        st.orientation.name(),
    ).concat("\"}")
}

/// Whether `s` is the canonical encoding of `st`.
fn matches_state(s: &String, st: StreamState) -> (r: bool)
    ensures
        r == (s@ == state_json(st)),
{
    let encoded = encode_stream_state(&st);
    *s == encoded
}

/// Decodes a persisted stream state: returns the state whose canonical
/// encoding `s` is, or `None` for any other string.
pub fn parse_stream_state(s: &str) -> (r: Option<StreamState>)
    ensures
        r matches Some(st) ==> s@ == state_json(st),
        forall|st: StreamState| s@ == state_json(st) ==> r == Some(st),
{
    let owned = s.to_owned();
    let candidates: [Orientation; 4] = [
        Orientation::Landscape,
        Orientation::Portrait,
        Orientation::InvertedLandscape,
        Orientation::InvertedPortrait,
    ];
    let mut i: usize = 0;
    while i < 4
        invariant
            i <= 4,
            owned@ == s@,
            candidates@ == seq![
                Orientation::Landscape,
                Orientation::Portrait,
                Orientation::InvertedLandscape,
                Orientation::InvertedPortrait,
            ],
            forall|st: StreamState|
                (exists|j: int| 0 <= j < i && st.orientation == candidates@[j]) ==> s@ != state_json(st),
        decreases 4 - i,
    {
        let o = candidates[i];
        let on = StreamState { enabled: true, orientation: o };
        if matches_state(&owned, on) {
            proof {
                assert forall|st: StreamState| s@ == state_json(st) implies Some(on) == Some(st) by {
                    lemma_state_json_injective(on, st);
                }
            }
            return Some(on);
        }
        let off = StreamState { enabled: false, orientation: o };
        if matches_state(&owned, off) {
            proof {
                assert forall|st: StreamState| s@ == state_json(st) implies Some(off) == Some(st) by {
                    lemma_state_json_injective(off, st);
                }
            }
            return Some(off);
        }
        i = i + 1;
    }
    proof {
        assert forall|st: StreamState| s@ != state_json(st) by {
            assert(exists|j: int| 0 <= j < 4 && st.orientation == candidates@[j]) by {
                match st.orientation {
                    Orientation::Landscape => assert(st.orientation == candidates@[0]),
                    Orientation::Portrait => assert(st.orientation == candidates@[1]),
                    Orientation::InvertedLandscape => assert(st.orientation == candidates@[2]),
                    Orientation::InvertedPortrait => assert(st.orientation == candidates@[3]),
                }
            }
        }
    }
    None
}

} // verus!
