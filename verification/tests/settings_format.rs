//! The persisted stream-state format: exact encodings, the round trip, and
//! rejection of anything else.

use lunacam::settings::{encode_stream_state, parse_stream_state, stream_state_key};
use lunacam::stream::{Orientation, StreamState};

const ORIENTATIONS: [Orientation; 4] = [
    Orientation::Landscape,
    Orientation::Portrait,
    Orientation::InvertedLandscape,
    Orientation::InvertedPortrait,
];

#[test]
fn key_is_fixed() {
    assert_eq!(stream_state_key(), "streamState");
}

#[test]
fn encodings_are_exact() {
    let st = StreamState { enabled: true, orientation: Orientation::Portrait };
    assert_eq!(
        encode_stream_state(&st),
        "{\"enabled\":true,\"orientation\":\"portrait\"}"
    );
    let st = StreamState { enabled: false, orientation: Orientation::Landscape };
    assert_eq!(
        encode_stream_state(&st),
        "{\"enabled\":false,\"orientation\":\"landscape\"}"
    );
    let st = StreamState { enabled: false, orientation: Orientation::InvertedLandscape };
    assert_eq!(
        encode_stream_state(&st),
        "{\"enabled\":false,\"orientation\":\"invertedLandscape\"}"
    );
    let st = StreamState { enabled: true, orientation: Orientation::InvertedPortrait };
    assert_eq!(
        encode_stream_state(&st),
        "{\"enabled\":true,\"orientation\":\"invertedPortrait\"}"
    );
}

#[test]
fn round_trip_all_states() {
    for &orientation in ORIENTATIONS.iter() {
        for &enabled in [false, true].iter() {
            let st = StreamState { enabled, orientation };
            let encoded = encode_stream_state(&st);
            assert_eq!(parse_stream_state(&encoded), Some(st));
        }
    }
}

#[test]
fn parse_rejects_other_strings() {
    assert_eq!(parse_stream_state(""), None);
    assert_eq!(parse_stream_state("{}"), None);
    assert_eq!(parse_stream_state("{\"enabled\":true}"), None);
    assert_eq!(parse_stream_state("{\"enabled\":true,\"orientation\":\"diagonal\"}"), None);
    // Not the canonical spacing: not recognized.
    assert_eq!(parse_stream_state("{\"enabled\": true,\"orientation\":\"portrait\"}"), None);
}

#[test]
fn orientation_tags_round_trip() {
    for &o in ORIENTATIONS.iter() {
        assert_eq!(Orientation::from_tag(o.to_tag()), Some(o));
    }
    assert_eq!(Orientation::Landscape.to_tag(), 0);
    assert_eq!(Orientation::Portrait.to_tag(), 1);
    assert_eq!(Orientation::InvertedLandscape.to_tag(), 2);
    assert_eq!(Orientation::InvertedPortrait.to_tag(), 3);
    assert_eq!(Orientation::from_tag(4), None);
    assert_eq!(Orientation::from_tag(-1), None);
}

#[test]
fn orientation_names() {
    assert_eq!(Orientation::Landscape.name(), "landscape");
    assert_eq!(Orientation::Portrait.name(), "portrait");
    assert_eq!(Orientation::InvertedLandscape.name(), "invertedLandscape");
    assert_eq!(Orientation::InvertedPortrait.name(), "invertedPortrait");
}

#[test]
fn default_state_is_disabled_landscape() {
    let st = StreamState::default();
    assert!(!st.enabled);
    assert_eq!(st.orientation, Orientation::Landscape);
    assert_eq!(Orientation::default(), Orientation::Landscape);
}
