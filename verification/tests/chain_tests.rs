use rtmp_encoder::chains::{
    make_audio_encoder, make_audio_input, make_element, make_output, make_video_encoder,
    make_video_input, StreamOutput, VideoEncoder,
};
use rtmp_encoder::graph::{BuildError, MediaKind, PipelineGraph, PropValue, RunState};

fn rtmp_output() -> StreamOutput {
    StreamOutput::RTMP {
        url: "rtmp://ingest.example/live".to_string(),
        stream_key: "abcd".to_string(),
    }
}

#[test]
fn video_chain_with_profile_has_seven_nodes_in_sequence() {
    let mut g = PipelineGraph::new();
    let (ingress, egress) = make_video_encoder(
        &mut g,
        1280,
        720,
        2500,
        30,
        &Some("main".to_string()),
        &None,
        &VideoEncoder::Software,
    );
    assert_eq!(ingress, 0);
    assert_eq!(egress, 6);
    assert_eq!(g.nodes.len(), 7);
    assert_eq!(g.links.len(), 6);
    for i in 0..6 {
        assert_eq!(g.links[i].from, i);
        assert_eq!(g.links[i].to, i + 1);
    }
    assert_eq!(g.nodes[0].kind, "queue");
    assert_eq!(g.nodes[1].kind, "videoconvert");
    assert_eq!(g.nodes[2].kind, "capsfilter");
    assert_eq!(g.nodes[3].kind, "x264enc");
    assert_eq!(g.nodes[4].kind, "h264parse");
    assert_eq!(g.nodes[5].kind, "capsfilter");
    assert_eq!(g.nodes[6].kind, "queue");
}

#[test]
fn video_chain_without_profile_has_six_nodes_in_sequence() {
    let mut g = PipelineGraph::new();
    let (ingress, egress) = make_video_encoder(
        &mut g,
        640,
        480,
        1000,
        25,
        &None,
        &None,
        &VideoEncoder::VA,
    );
    assert_eq!(ingress, 0);
    assert_eq!(egress, 5);
    assert_eq!(g.nodes.len(), 6);
    assert_eq!(g.links.len(), 5);
    for i in 0..5 {
        assert_eq!(g.links[i].from, i);
        assert_eq!(g.links[i].to, i + 1);
    }
    assert_eq!(g.nodes[3].kind, "vaapih264enc");
    assert_eq!(g.nodes[5].kind, "queue");
}

fn keyframe_interval_of(g: &PipelineGraph, node: usize) -> u64 {
    match &g.nodes[node].props[0].value {
        PropValue::UIntVal(v) => *v,
        _ => panic!("keyframe property should be an unsigned integer"),
    }
}

#[test]
fn keyframe_interval_is_twice_framerate_for_every_variant() {
    for (variant, framerate) in [
        (VideoEncoder::Software, 30u32),
        (VideoEncoder::VA, 24u32),
        (VideoEncoder::V4L2, 60u32),
    ] {
        let mut g = PipelineGraph::new();
        let (ingress, _) = make_video_encoder(
            &mut g,
            1920,
            1080,
            4000,
            framerate,
            &None,
            &None,
            &variant,
        );
        let encoder = ingress + 3;
        let expected_name = match variant {
            VideoEncoder::Software => "key-int-max",
            _ => "keyframe-period",
        };
        assert_eq!(g.nodes[encoder].props[0].name, expected_name);
        assert_eq!(keyframe_interval_of(&g, encoder), 2 * framerate as u64);
    }
}

#[test]
fn audio_chain_has_six_nodes_and_native_bitrate() {
    let mut g = PipelineGraph::new();
    let (ingress, egress) = make_audio_encoder(&mut g, 128, 2, 44100);
    assert_eq!(ingress, 0);
    assert_eq!(egress, 5);
    assert_eq!(g.nodes.len(), 6);
    assert_eq!(g.links.len(), 5);
    assert_eq!(g.nodes[0].kind, "queue");
    assert_eq!(g.nodes[1].kind, "audioconvert");
    assert_eq!(g.nodes[2].kind, "fdkaacenc");
    assert_eq!(g.nodes[3].kind, "aacparse");
    assert_eq!(g.nodes[4].kind, "capsfilter");
    assert_eq!(g.nodes[5].kind, "queue");
    assert_eq!(g.nodes[2].props[0].name, "peak-bitrate");
    match &g.nodes[2].props[0].value {
        PropValue::IntVal(v) => assert_eq!(*v, 128_000),
        _ => panic!("peak-bitrate should be an integer property"),
    }
}

#[test]
fn audio_input_sets_location_and_links_three_nodes() {
    let mut g = PipelineGraph::new();
    let egress = make_audio_input(&mut g, "https://play.example/user/7/channel/42/stream");
    assert_eq!(egress, 2);
    assert_eq!(g.nodes.len(), 3);
    assert_eq!(g.nodes[0].kind, "souphttpsrc");
    assert_eq!(g.nodes[1].kind, "mpegaudioparse");
    assert_eq!(g.nodes[2].kind, "mpg123audiodec");
    assert_eq!(g.links.len(), 2);
    match &g.nodes[0].props[0].value {
        PropValue::StrVal(s) => assert_eq!(s, "https://play.example/user/7/channel/42/stream"),
        _ => panic!("location should be a string property"),
    }
}

#[test]
fn video_input_is_one_document_source() {
    let mut g = PipelineGraph::new();
    let egress = make_video_input(&mut g, "data:text/html;base64,PGI+PC9iPg==");
    assert_eq!(egress, 0);
    assert_eq!(g.nodes.len(), 1);
    assert_eq!(g.nodes[0].kind, "wpesrc");
    assert_eq!(g.nodes[0].props[0].name, "location");
}

#[test]
fn output_chain_builds_muxer_sink_and_two_ports() {
    let mut g = PipelineGraph::new();
    let (chain, video_port, audio_port) = make_output(&mut g, &rtmp_output());
    assert_eq!(g.nodes.len(), 2);
    assert_eq!(g.nodes[0].kind, "flvmux");
    assert_eq!(g.nodes[1].kind, "rtmp2sink");
    match &g.nodes[1].props[0].value {
        PropValue::StrVal(s) => assert_eq!(s, "rtmp://ingest.example/live/abcd"),
        _ => panic!("location should be a string property"),
    }
    assert_eq!(g.ports.len(), 2);
    assert_eq!(video_port, 0);
    assert_eq!(audio_port, 1);
    assert!(matches!(g.ports[0].media, MediaKind::Video));
    assert!(matches!(g.ports[1].media, MediaKind::Audio));
    assert_eq!(chain.mux, 0);
}

#[test]
fn requesting_a_port_twice_for_the_same_kind_is_rejected() {
    let mut g = PipelineGraph::new();
    let (mut chain, _, _) = make_output(&mut g, &rtmp_output());
    let again_video = chain.request_port(&mut g, MediaKind::Video);
    assert!(matches!(again_video, Err(BuildError::PortAlreadyRequested)));
    let again_audio = chain.request_port(&mut g, MediaKind::Audio);
    assert!(matches!(again_audio, Err(BuildError::PortAlreadyRequested)));
    assert_eq!(g.ports.len(), 2);
}

#[test]
fn linking_an_unregistered_node_is_a_construction_error() {
    let mut g = PipelineGraph::new();
    let q = make_element(&mut g, "queue");
    assert!(matches!(g.link(q, 7), Err(BuildError::UnregisteredNode)));
    assert!(matches!(g.link(7, q), Err(BuildError::UnregisteredNode)));
    assert_eq!(g.links.len(), 0);
    assert!(matches!(g.link_pad(q, 0), Err(BuildError::UnknownPort)));
    assert!(matches!(g.link_pad(9, 0), Err(BuildError::UnregisteredNode)));
}

#[test]
fn playing_with_an_unlinked_port_fails_and_leaves_state_null() {
    let mut g = PipelineGraph::new();
    let (_chain, video_port, audio_port) = make_output(&mut g, &rtmp_output());
    let producer = make_element(&mut g, "queue");
    g.link_pad(producer, video_port).unwrap();
    // the audio port is deliberately left unlinked
    let started = g.set_state(RunState::Playing);
    assert!(started.is_err());
    assert!(matches!(g.state, RunState::Null));

    let second_producer = make_element(&mut g, "queue");
    g.link_pad(second_producer, audio_port).unwrap();
    assert!(g.set_state(RunState::Playing).is_ok());
    assert!(matches!(g.state, RunState::Playing));
}
