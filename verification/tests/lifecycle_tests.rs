use rtmp_encoder::address::{audio_source_address, decimal_string, publish_address};
use rtmp_encoder::chains::VideoEncoder;
use rtmp_encoder::config::{AudioSettings, Config, VideoAcceleration, VideoSettings};
use rtmp_encoder::graph::{PropValue, RunState};
use rtmp_encoder::lifecycle::{drive_to_completion, handle_event, ControlEvent, RunOutcome};
use rtmp_encoder::pipeline::{assemble, video_encoder_choice};

fn sample_config() -> Config {
    Config {
        user_id: 7,
        channel_id: 42,
        playback_server_url: "https://play.example".to_string(),
        rtmp_url: "rtmp://ingest.example/live".to_string(),
        rtmp_stream_key: "abcd".to_string(),
        audio: AudioSettings { bitrate: 128, channels: 2, sample_rate: 44100 },
        video: VideoSettings {
            width: 1280,
            height: 720,
            bitrate: 2500,
            framerate: 30,
            profile: Some("main".to_string()),
            level: None,
        },
        video_acceleration: None,
    }
}

#[test]
fn decimal_rendering_is_exact() {
    assert_eq!(decimal_string(0), "0");
    assert_eq!(decimal_string(7), "7");
    assert_eq!(decimal_string(42), "42");
    assert_eq!(decimal_string(u32::MAX), "4294967295");
}

#[test]
fn audio_source_address_is_derived_exactly() {
    assert_eq!(
        audio_source_address("https://play.example", 7, 42),
        "https://play.example/user/7/channel/42/stream"
    );
}

#[test]
fn publish_address_is_derived_exactly() {
    assert_eq!(
        publish_address("rtmp://ingest.example/live", "abcd"),
        "rtmp://ingest.example/live/abcd"
    );
}

#[test]
fn encoder_choice_follows_acceleration_setting() {
    let mut config = sample_config();
    assert!(matches!(video_encoder_choice(&config), VideoEncoder::Software));
    config.video_acceleration = Some(VideoAcceleration::VAAPI);
    assert!(matches!(video_encoder_choice(&config), VideoEncoder::VA));
    config.video_acceleration = Some(VideoAcceleration::V4L2);
    assert!(matches!(video_encoder_choice(&config), VideoEncoder::V4L2));
}

#[test]
fn assembled_pipeline_is_fully_wired_and_startable() {
    let config = sample_config();
    let mut built = assemble(&config, "data:text/html;base64,PGI+PC9iPg==");
    assert!(matches!(built.graph.state, RunState::Null));
    assert_eq!(built.graph.ports.len(), 2);
    assert_eq!(built.graph.pad_links.len(), 2);
    // a profile is configured, so the video chain has seven nodes
    assert_eq!(built.graph.nodes.len(), 21);
    assert_eq!(built.graph.links.len(), 18);

    let source = &built.graph.nodes[built.audio_input - 2];
    assert_eq!(source.kind, "souphttpsrc");
    match &source.props[0].value {
        PropValue::StrVal(s) => {
            assert_eq!(s, "https://play.example/user/7/channel/42/stream")
        },
        _ => panic!("location should be a string property"),
    }
    let sink = &built.graph.nodes[built.output.mux + 1];
    assert_eq!(sink.kind, "rtmp2sink");
    match &sink.props[0].value {
        PropValue::StrVal(s) => assert_eq!(s, "rtmp://ingest.example/live/abcd"),
        _ => panic!("location should be a string property"),
    }

    assert!(built.graph.set_state(RunState::Playing).is_ok());
    assert!(matches!(built.graph.state, RunState::Playing));
}

#[test]
fn end_of_stream_stops_after_exactly_one_iteration() {
    let config = sample_config();
    let mut built = assemble(&config, "data:text/html;base64,");
    built.graph.set_state(RunState::Playing).unwrap();
    let events = vec![ControlEvent::EndOfStream, ControlEvent::Other];
    let (consumed, outcome) = drive_to_completion(&mut built.graph, &events);
    assert_eq!(consumed, 1);
    assert!(matches!(outcome, Some(RunOutcome::Completed)));
    assert!(matches!(built.graph.state, RunState::Null));
}

#[test]
fn ignored_events_are_discarded_until_a_terminal_one() {
    let config = sample_config();
    let mut built = assemble(&config, "data:text/html;base64,");
    built.graph.set_state(RunState::Playing).unwrap();
    let events = vec![
        ControlEvent::Other,
        ControlEvent::Other,
        ControlEvent::EndOfStream,
        ControlEvent::Other,
    ];
    let (consumed, outcome) = drive_to_completion(&mut built.graph, &events);
    assert_eq!(consumed, 3);
    assert!(matches!(outcome, Some(RunOutcome::Completed)));
    assert!(matches!(built.graph.state, RunState::Null));
}

#[test]
fn an_error_event_stops_the_run_and_its_log_names_the_source() {
    let config = sample_config();
    let mut built = assemble(&config, "data:text/html;base64,");
    built.graph.set_state(RunState::Playing).unwrap();
    let events = vec![ControlEvent::Error {
        source: "/pipeline/souphttpsrc0".to_string(),
        message: "connection reset".to_string(),
        debug: "detail".to_string(),
    }];
    let (consumed, outcome) = drive_to_completion(&mut built.graph, &events);
    assert_eq!(consumed, 1);
    assert!(matches!(built.graph.state, RunState::Null));
    let outcome = outcome.expect("an error event is terminal");
    let line = outcome.describe();
    assert_eq!(line, "Error from /pipeline/souphttpsrc0: connection reset (detail)");
    assert!(line.contains("/pipeline/souphttpsrc0"));
}

#[test]
fn a_run_without_terminal_events_reads_everything_and_reports_nothing() {
    let config = sample_config();
    let mut built = assemble(&config, "data:text/html;base64,");
    built.graph.set_state(RunState::Playing).unwrap();
    let events = vec![ControlEvent::Other, ControlEvent::Other];
    let (consumed, outcome) = drive_to_completion(&mut built.graph, &events);
    assert_eq!(consumed, 2);
    assert!(outcome.is_none());
    assert!(matches!(built.graph.state, RunState::Playing));
}

#[test]
fn handle_event_classifies_each_event_kind() {
    assert!(matches!(
        handle_event(&ControlEvent::EndOfStream),
        Some(RunOutcome::Completed)
    ));
    assert!(handle_event(&ControlEvent::Other).is_none());
    match handle_event(&ControlEvent::Error {
        source: "s".to_string(),
        message: "m".to_string(),
        debug: "d".to_string(),
    }) {
        Some(RunOutcome::Failed { source, message, debug }) => {
            assert_eq!(source, "s");
            assert_eq!(message, "m");
            assert_eq!(debug, "d");
        },
        _ => panic!("an error event should fail the run"),
    }
}

#[test]
fn completed_outcome_describes_end_of_stream() {
    assert_eq!(RunOutcome::Completed.describe(), "End of stream");
}
