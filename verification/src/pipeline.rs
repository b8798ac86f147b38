//! The graph assembler: builds every chain, wires them end to end, and
//! leaves a graph that is ready for the transition to `Playing`.

use vstd::prelude::*;
use crate::address::{audio_source_address, dec_digits};
use crate::chains::{
    is_audio_encoder_node, is_document_source, is_http_source, is_publish_sink, is_stream_muxer,
    is_video_encoder_node, make_audio_encoder, make_audio_input, make_output, make_video_encoder,
    make_video_input, video_chain_len, StreamOutput, OutputChain, VideoEncoder,
};
use crate::config::{Config, VideoAcceleration};
use crate::graph::{Link, MediaKind, PadLink, PipelineGraph, PortSpec, RunState};

verus! {

/// The encoder variant a configuration selects: hardware acceleration
/// when configured, the software encoder otherwise.
pub open spec fn encoder_variant_of(c: Config) -> VideoEncoder {
    match c.video_acceleration {
        None => VideoEncoder::Software,
        Some(VideoAcceleration::VAAPI) => VideoEncoder::VA,
        Some(VideoAcceleration::V4L2) => VideoEncoder::V4L2,
    }
}

/// Picks the encoder variant from the configuration.
pub fn video_encoder_choice(config: &Config) -> (r: VideoEncoder)
    ensures
        r == encoder_variant_of(*config),
{
    match &config.video_acceleration {
        None => VideoEncoder::Software,
        Some(VideoAcceleration::VAAPI) => VideoEncoder::VA,
        Some(VideoAcceleration::V4L2) => VideoEncoder::V4L2,
    }
}

/// The derived audio source address of a configuration:
/// `{playback_server_url}/user/{user_id}/channel/{channel_id}/stream`.
pub open spec fn audio_address_of(c: Config) -> Seq<char> {
    c.playback_server_url@ + "/user/"@ + dec_digits(c.user_id as nat) + "/channel/"@
        + dec_digits(c.channel_id as nat) + "/stream"@
}

/// The fully assembled pipeline: the graph, the output chain record, and
/// the boundary nodes and ports of every chain.
pub struct BuiltPipeline {
    pub graph: PipelineGraph,
    pub output: OutputChain,
    pub video_ingress: usize,
    pub video_egress: usize,
    pub audio_ingress: usize,
    pub audio_egress: usize,
    pub video_input: usize,
    pub audio_input: usize,
    pub clockoverlay: usize,
    pub audiomixer: usize,
    pub video_port: usize,
    pub audio_port: usize,
}

/// Assembles the whole graph from a configuration and the overlay
/// document's in-memory URI: encoder chains and the output chain first
/// (so the muxer's ports exist), the input chains last, then all the
/// cross-chain links.  The result is completely wired — every requested
/// port has its single producer — so the transition to `Playing` is owed
/// to succeed on it.
pub fn assemble(config: &Config, overlay_uri: &str) -> (p: BuiltPipeline)
    ensures
        p.graph.wf(),
        p.graph.state == RunState::Null,
        p.graph.all_ports_linked(),
        p.graph.ports@.len() == 2,
        p.graph.nodes@.len() == video_chain_len(config.video.profile) + 14,
        p.graph.links@.len() == video_chain_len(config.video.profile) + 11,
        is_video_encoder_node(
            p.graph.nodes@[p.video_ingress + 3],
            encoder_variant_of(*config),
            config.video.bitrate,
            config.video.framerate,
        ),
        is_audio_encoder_node(p.graph.nodes@[p.audio_ingress + 2], config.audio.bitrate),
        is_stream_muxer(p.graph.nodes@[p.output.mux as int]),
        is_publish_sink(
            p.graph.nodes@[p.output.mux + 1],
            config.rtmp_url@,
            config.rtmp_stream_key@,
        ),
        is_document_source(p.graph.nodes@[p.video_input as int], overlay_uri@),
        is_http_source(p.graph.nodes@[p.audio_input - 2], audio_address_of(*config)),
        p.graph.links@.contains((Link { from: p.video_input, to: p.clockoverlay })),
        p.graph.links@.contains((Link { from: p.clockoverlay, to: p.video_ingress })),
        p.graph.links@.contains((Link { from: p.audio_input, to: p.audiomixer })),
        p.graph.links@.contains((Link { from: p.audiomixer, to: p.audio_ingress })),
        p.graph.pad_links@ == seq![
            (PadLink { src: p.video_egress, port: p.video_port }),
            (PadLink { src: p.audio_egress, port: p.audio_port }),
        ],
        p.graph.ports@[p.video_port as int] == (PortSpec {
            node: p.output.mux,
            media: MediaKind::Video,
        }),
        p.graph.ports@[p.audio_port as int] == (PortSpec {
            node: p.output.mux,
            media: MediaKind::Audio,
        }),
        p.output.video_port == Some(p.video_port),
        p.output.audio_port == Some(p.audio_port),
{
    let mut g = PipelineGraph::new();

    let encoder = video_encoder_choice(config);
    let (video_ingress, video_egress) = make_video_encoder(
        &mut g,
        config.video.width,
        config.video.height,
        config.video.bitrate,
        config.video.framerate,
        &config.video.profile,
        &config.video.level,
        &encoder,
    );
    let (audio_ingress, audio_egress) = make_audio_encoder(
        &mut g,
        config.audio.bitrate,
        config.audio.channels,
        config.audio.sample_rate,
    );

    let stream_output = StreamOutput::RTMP {
        url: config.rtmp_url.clone(),
        stream_key: config.rtmp_stream_key.clone(),
    };
    let (output, video_port, audio_port) = make_output(&mut g, &stream_output);

    let video_input = make_video_input(&mut g, overlay_uri);

    let audio_url = audio_source_address(
        config.playback_server_url.as_str(),
        config.user_id,
        config.channel_id,
    );
    let audio_input = make_audio_input(&mut g, audio_url.as_str());

    let audiomixer = crate::chains::make_element(&mut g, "audiomixer");
    let clockoverlay = crate::chains::make_element(&mut g, "clockoverlay");

    g.link_nodes(video_input, clockoverlay);
    g.link_nodes(clockoverlay, video_ingress);
    g.link_nodes(audio_input, audiomixer);
    g.link_nodes(audiomixer, audio_ingress);

    g.link_port(video_egress, video_port);
    g.link_port(audio_egress, audio_port);

    proof {
        let n = g.links@.len() as int;
        assert(g.links@.contains((Link { from: video_input, to: clockoverlay }))) by {
            assert(g.links@[n - 4] == (Link { from: video_input, to: clockoverlay }));
        }
        assert(g.links@.contains((Link { from: clockoverlay, to: video_ingress }))) by {
            assert(g.links@[n - 3] == (Link { from: clockoverlay, to: video_ingress }));
        }
        assert(g.links@.contains((Link { from: audio_input, to: audiomixer }))) by {
            assert(g.links@[n - 2] == (Link { from: audio_input, to: audiomixer }));
        }
        assert(g.links@.contains((Link { from: audiomixer, to: audio_ingress }))) by {
            assert(g.links@[n - 1] == (Link { from: audiomixer, to: audio_ingress }));
        }
        assert(g.pad_links@ =~= seq![
            (PadLink { src: video_egress, port: video_port }),
            (PadLink { src: audio_egress, port: audio_port }),
        ]);
        assert(g.port_linked(0)) by {
            assert(g.pad_links@[0].port == 0);
        }
        assert(g.port_linked(1)) by {
            assert(g.pad_links@[1].port == 1);
        }
    }

    BuiltPipeline {
        graph: g,
        output,
        video_ingress,
        video_egress,
        audio_ingress,
        audio_egress,
        video_input,
        audio_input,
        clockoverlay,
        audiomixer,
        video_port,
        audio_port,
    }
}

} // verus!
