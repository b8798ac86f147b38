//! Chain builders: the encoder, input and output sub-chains of the graph.
//!
//! Each builder registers its nodes into the graph, links them internally,
//! and exposes only its boundary: the ingress and egress node of an
//! encoder chain, the egress node of an input chain, or the requested
//! input ports of the output chain.

use vstd::prelude::*;
use crate::graph::{
    BuildError, CapsField, CapsSpec, FieldValue, Link, MediaKind, NodeSpec, PipelineGraph,
    PortSpec, PropValue,
};
use crate::address::publish_address;

verus! {

/// A node with no properties applied.
pub open spec fn is_plain(n: NodeSpec, kind: Seq<char>) -> bool {
    n.kind@ == kind && n.props@.len() == 0
}

/// The links of one unbranched chain: node `start + i` feeds node
/// `start + i + 1`, for all `n` nodes of the chain.
pub open spec fn chain_links(start: int, n: int) -> Seq<Link> {
    Seq::new((n - 1) as nat, |i: int| (Link { from: (start + i) as usize, to: (start + i + 1) as usize }))
}

/// Everything but the node list is unchanged.
pub open spec fn same_wiring(a: PipelineGraph, b: PipelineGraph) -> bool {
    &&& b.links@ == a.links@
    &&& b.ports@ == a.ports@
    &&& b.pad_links@ == a.pad_links@
    &&& b.state == a.state
}

/// The old node list is a prefix of the new one.
pub open spec fn nodes_kept(a: PipelineGraph, b: PipelineGraph) -> bool {
    &&& b.nodes@.len() >= a.nodes@.len()
    &&& forall|i: int| 0 <= i < a.nodes@.len() ==> b.nodes@[i] == a.nodes@[i]
}

/// Registers a node of the given engine kind into the graph, with no
/// properties yet, and returns its index.
pub fn make_element(g: &mut PipelineGraph, factory: &str) -> (r: usize)
    requires
        old(g).wf(),
    ensures
        final(g).wf(),
        r == old(g).nodes@.len(),
        final(g).nodes@.len() == old(g).nodes@.len() + 1,
        nodes_kept(*old(g), *final(g)),
        is_plain(final(g).nodes@[r as int], factory@),
        same_wiring(*old(g), *final(g)),
{
    let r = g.nodes.len();
    g.nodes.push(NodeSpec { kind: factory.to_owned(), props: Vec::new() });
    r
}

/// A capability-filter node bound to exactly the given capability set.
pub open spec fn is_caps_filter(n: NodeSpec, c: CapsSpec) -> bool {
    &&& n.kind@ == "capsfilter"@
    &&& n.props@.len() == 1
    &&& n.props@[0].name@ == "caps"@
    &&& n.props@[0].value == PropValue::CapsVal(c)
}

/// Registers a capability-filter node constraining a link to exactly the
/// given capability set.
pub fn make_capsfilter(g: &mut PipelineGraph, caps: CapsSpec) -> (r: usize)
    requires
        old(g).wf(),
    ensures
        final(g).wf(),
        r == old(g).nodes@.len(),
        final(g).nodes@.len() == old(g).nodes@.len() + 1,
        nodes_kept(*old(g), *final(g)),
        is_caps_filter(final(g).nodes@[r as int], caps),
        same_wiring(*old(g), *final(g)),
{
    let r = make_element(g, "capsfilter");
    g.set_property(r, "caps", PropValue::CapsVal(caps));
    r
}

/// The closed choice of video encoder variants.  All variants share one
/// semantic contract (constant bitrate, keyframe interval = 2 x frame
/// rate); only the engine kind and property names differ.
#[derive(Clone, Copy, PartialEq, Eq, Structural)]
pub enum VideoEncoder {
    Software,
    VA,
    V4L2,
}

/// The engine kind name of each encoder variant.
pub open spec fn encoder_kind(v: VideoEncoder) -> Seq<char> {
    match v {
        VideoEncoder::Software => "x264enc"@,
        VideoEncoder::VA => "vaapih264enc"@,
        VideoEncoder::V4L2 => "v4l2h264enc"@,
    }
}

/// The property name under which each variant takes its keyframe interval.
pub open spec fn keyframe_prop(v: VideoEncoder) -> Seq<char> {
    match v {
        VideoEncoder::Software => "key-int-max"@,
        VideoEncoder::VA => "keyframe-period"@,
        VideoEncoder::V4L2 => "keyframe-period"@,
    }
}

/// The property name under which each variant takes its rate-control mode.
pub open spec fn rate_control_prop(v: VideoEncoder) -> Seq<char> {
    match v {
        VideoEncoder::Software => "pass"@,
        VideoEncoder::VA => "rate-control"@,
        VideoEncoder::V4L2 => "rate-control"@,
    }
}

/// The raw-video capability set in front of the encoder: resolution,
/// frame rate and the fixed planar 4:2:0 pixel format.
pub open spec fn is_video_raw_caps(c: CapsSpec, width: u32, height: u32, framerate: u32) -> bool {
    &&& c.media@ == "video/x-raw"@
    &&& c.fields@.len() == 4
    &&& c.fields@[0].name@ == "width"@ && c.fields@[0].value == FieldValue::IntVal(width as i64)
    &&& c.fields@[1].name@ == "height"@ && c.fields@[1].value == FieldValue::IntVal(height as i64)
    &&& c.fields@[2].name@ == "rate"@ && c.fields@[2].value == FieldValue::IntVal(framerate as i64)
    &&& c.fields@[3].name@ == "format"@ && (c.fields@[3].value matches FieldValue::StrVal(s)
        && s@ == "NV12"@)
}

/// The encoded-video capability set after the encoder, constraining the
/// codec profile.
pub open spec fn is_h264_profile_caps(c: CapsSpec, profile: Seq<char>) -> bool {
    &&& c.media@ == "video/x-h264"@
    &&& c.fields@.len() == 1
    &&& c.fields@[0].name@ == "profile"@ && (c.fields@[0].value matches FieldValue::StrVal(s)
        && s@ == profile)
}

/// The encoder node of a variant: keyframe interval of exactly twice the
/// frame rate, the configured bitrate, and constant-bitrate rate control,
/// each under the variant's own property names.
pub open spec fn is_video_encoder_node(
    n: NodeSpec,
    v: VideoEncoder,
    bitrate: u32,
    framerate: u32,
) -> bool {
    &&& n.kind@ == encoder_kind(v)
    &&& n.props@.len() == 3
    &&& n.props@[0].name@ == keyframe_prop(v) && n.props@[0].value == PropValue::UIntVal(
        ((2 * framerate) as u64),
    )
    &&& n.props@[1].name@ == "bitrate"@ && n.props@[1].value == PropValue::UIntVal(
        (bitrate as u64),
    )
    &&& n.props@[2].name@ == rate_control_prop(v) && (n.props@[2].value matches
        PropValue::EnumVal(s) && s@ == "cbr"@)
}

/// The number of nodes in a video encoder chain: the post-encode profile
/// filter exists only when a profile is configured.
pub open spec fn video_chain_len(profile: Option<String>) -> int {
    if profile is Some {
        7
    } else {
        6
    }
}

/// Builds the raw-video capability set.
fn video_raw_caps(width: u32, height: u32, framerate: u32) -> (c: CapsSpec)
    ensures
        is_video_raw_caps(c, width, height, framerate),
{
    let mut fields: Vec<CapsField> = Vec::new();
    fields.push(CapsField { name: "width".to_owned(), value: FieldValue::IntVal(width as i64) });
    fields.push(CapsField { name: "height".to_owned(), value: FieldValue::IntVal(height as i64) });
    fields.push(
        CapsField { name: "rate".to_owned(), value: FieldValue::IntVal(framerate as i64) },
    );
    fields.push(
        CapsField { name: "format".to_owned(), value: FieldValue::StrVal("NV12".to_owned()) },
    );
    CapsSpec { media: "video/x-raw".to_owned(), fields }
}

/// Builds the video encoder chain: ingress buffering, pixel-format
/// conversion, a raw-format capability filter, the variant's encoder, a
/// bitstream parser, a profile capability filter when a profile is
/// configured, and egress buffering.  All nodes are registered and linked
/// into one unbranched sequence; the caller receives the chain's ingress
/// and egress node only.
///
/// The configured `level` is accepted but not yet applied to any
/// capability filter; only the profile constrains the encoded stream.
#[allow(unused_variables)]
pub fn make_video_encoder(
    g: &mut PipelineGraph,
    video_width: u32,
    video_height: u32,
    video_bitrate: u32,
    video_framerate: u32,
    video_profile: &Option<String>,
    video_level: &Option<String>,
    video_encoder: &VideoEncoder,
) -> (r: (usize, usize))
    requires
        old(g).wf(),
    ensures
        final(g).wf(),
        final(g).nodes@.len() == old(g).nodes@.len() + video_chain_len(*video_profile),
        nodes_kept(*old(g), *final(g)),
        r.0 == old(g).nodes@.len(),
        r.1 == old(g).nodes@.len() + video_chain_len(*video_profile) - 1,
        is_plain(final(g).nodes@[r.0 as int], "queue"@),
        is_plain(final(g).nodes@[r.0 + 1], "videoconvert"@),
        final(g).nodes@[r.0 + 2].kind@ == "capsfilter"@,
        final(g).nodes@[r.0 + 2].props@.len() == 1,
        final(g).nodes@[r.0 + 2].props@[0].name@ == "caps"@,
        final(g).nodes@[r.0 + 2].props@[0].value matches PropValue::CapsVal(c)
            && is_video_raw_caps(c, video_width, video_height, video_framerate),
        is_video_encoder_node(
            final(g).nodes@[r.0 + 3],
            *video_encoder,
            video_bitrate,
            video_framerate,
        ),
        is_plain(final(g).nodes@[r.0 + 4], "h264parse"@),
        *video_profile matches Some(p) ==> final(g).nodes@[r.0 + 5].kind@ == "capsfilter"@
            && final(g).nodes@[r.0 + 5].props@.len() == 1
            && final(g).nodes@[r.0 + 5].props@[0].name@ == "caps"@
            && (final(g).nodes@[r.0 + 5].props@[0].value matches PropValue::CapsVal(c)
            && is_h264_profile_caps(c, p@)),
        is_plain(final(g).nodes@[r.1 as int], "queue"@),
        final(g).links@ == old(g).links@ + chain_links(
            r.0 as int,
            video_chain_len(*video_profile),
        ),
        final(g).ports@ == old(g).ports@,
        final(g).pad_links@ == old(g).pad_links@,
        final(g).state == old(g).state,
{
    let queue_in = make_element(g, "queue");
    let videoconvert = make_element(g, "videoconvert");
    let caps_in = make_capsfilter(g, video_raw_caps(video_width, video_height, video_framerate));

    let encoder: usize = match video_encoder {
        VideoEncoder::Software => {
            let e = make_element(g, "x264enc");
            g.set_property(e, "key-int-max", PropValue::UIntVal(2 * video_framerate as u64));
            g.set_property(e, "bitrate", PropValue::UIntVal(video_bitrate as u64));
            g.set_property(e, "pass", PropValue::EnumVal("cbr".to_owned()));
            e
        },
        VideoEncoder::VA => {
            let e = make_element(g, "vaapih264enc");
            g.set_property(e, "keyframe-period", PropValue::UIntVal(2 * video_framerate as u64));
            g.set_property(e, "bitrate", PropValue::UIntVal(video_bitrate as u64));
            g.set_property(e, "rate-control", PropValue::EnumVal("cbr".to_owned()));
            e
        },
        VideoEncoder::V4L2 => {
            let e = make_element(g, "v4l2h264enc");
            g.set_property(e, "keyframe-period", PropValue::UIntVal(2 * video_framerate as u64));
            g.set_property(e, "bitrate", PropValue::UIntVal(video_bitrate as u64));
            g.set_property(e, "rate-control", PropValue::EnumVal("cbr".to_owned()));
            e
        },
    };

    let h264parse = make_element(g, "h264parse");

    if let Some(profile) = video_profile {
        let mut fields: Vec<CapsField> = Vec::new();
        fields.push(
            CapsField {
                name: "profile".to_owned(),
                value: FieldValue::StrVal(profile.as_str().to_owned()),
            },
        );
        let caps_after = make_capsfilter(g, CapsSpec { media: "video/x-h264".to_owned(), fields });
        let queue_out = make_element(g, "queue");
        g.link_nodes(queue_in, videoconvert);
        g.link_nodes(videoconvert, caps_in);
        g.link_nodes(caps_in, encoder);
        g.link_nodes(encoder, h264parse);
        g.link_nodes(h264parse, caps_after);
        g.link_nodes(caps_after, queue_out);
        proof {
            assert(g.links@ =~= old(g).links@ + chain_links(queue_in as int, 7));
        }
        (queue_in, queue_out)
    } else {
        let queue_out = make_element(g, "queue");
        g.link_nodes(queue_in, videoconvert);
        g.link_nodes(videoconvert, caps_in);
        g.link_nodes(caps_in, encoder);
        g.link_nodes(encoder, h264parse);
        g.link_nodes(h264parse, queue_out);
        proof {
            assert(g.links@ =~= old(g).links@ + chain_links(queue_in as int, 6));
        }
        (queue_in, queue_out)
    }
}

/// The encoded-audio capability set after the encoder: sample rate and
/// channel count.
pub open spec fn is_audio_mpeg_caps(c: CapsSpec, sample_rate: u32, channels: u32) -> bool {
    &&& c.media@ == "audio/mpeg"@
    &&& c.fields@.len() == 2
    &&& c.fields@[0].name@ == "rate"@ && c.fields@[0].value == FieldValue::IntVal(
        (sample_rate as i64),
    )
    &&& c.fields@[1].name@ == "channels"@ && c.fields@[1].value == FieldValue::IntVal(
        (channels as i64),
    )
}

/// The audio encoder node: the configured bitrate expressed in the
/// engine's native unit, i.e. the semantic bitrate times 1000.
pub open spec fn is_audio_encoder_node(n: NodeSpec, bitrate: u32) -> bool {
    &&& n.kind@ == "fdkaacenc"@
    &&& n.props@.len() == 1
    &&& n.props@[0].name@ == "peak-bitrate"@ && n.props@[0].value == PropValue::IntVal(
        ((bitrate * 1000) as i64),
    )
}

/// Builds the audio encoder chain: ingress buffering, audio-format
/// conversion, the encoder, a bitstream parser, a capability filter
/// constraining sample rate and channel count, and egress buffering.
/// Six nodes, registered and linked into one unbranched sequence; the
/// caller receives the chain's ingress and egress node only.
pub fn make_audio_encoder(
    g: &mut PipelineGraph,
    bitrate: u32,
    channels: u32,
    sample_rate: u32,
) -> (r: (usize, usize))
    requires
        old(g).wf(),
    ensures
        final(g).wf(),
        final(g).nodes@.len() == old(g).nodes@.len() + 6,
        nodes_kept(*old(g), *final(g)),
        r.0 == old(g).nodes@.len(),
        r.1 == old(g).nodes@.len() + 5,
        is_plain(final(g).nodes@[r.0 as int], "queue"@),
        is_plain(final(g).nodes@[r.0 + 1], "audioconvert"@),
        is_audio_encoder_node(final(g).nodes@[r.0 + 2], bitrate),
        is_plain(final(g).nodes@[r.0 + 3], "aacparse"@),
        final(g).nodes@[r.0 + 4].kind@ == "capsfilter"@,
        final(g).nodes@[r.0 + 4].props@.len() == 1,
        final(g).nodes@[r.0 + 4].props@[0].name@ == "caps"@,
        final(g).nodes@[r.0 + 4].props@[0].value matches PropValue::CapsVal(c)
            && is_audio_mpeg_caps(c, sample_rate, channels),
        is_plain(final(g).nodes@[r.1 as int], "queue"@),
        final(g).links@ == old(g).links@ + chain_links(r.0 as int, 6),
        final(g).ports@ == old(g).ports@,
        final(g).pad_links@ == old(g).pad_links@,
        final(g).state == old(g).state,
{
    let queue_in = make_element(g, "queue");
    let audioconvert = make_element(g, "audioconvert");
    let fdkaacenc = make_element(g, "fdkaacenc");
    let native_bitrate: i64 = (bitrate as i64) * 1000;
    g.set_property(fdkaacenc, "peak-bitrate", PropValue::IntVal(native_bitrate));
    let aacparse = make_element(g, "aacparse");
    let mut fields: Vec<CapsField> = Vec::new();
    fields.push(
        CapsField { name: "rate".to_owned(), value: FieldValue::IntVal(sample_rate as i64) },
    );
    fields.push(
        CapsField { name: "channels".to_owned(), value: FieldValue::IntVal(channels as i64) },
    );
    let caps = make_capsfilter(g, CapsSpec { media: "audio/mpeg".to_owned(), fields });
    let queue_out = make_element(g, "queue");

    g.link_nodes(queue_in, audioconvert);
    g.link_nodes(audioconvert, fdkaacenc);
    g.link_nodes(fdkaacenc, aacparse);
    g.link_nodes(aacparse, caps);
    g.link_nodes(caps, queue_out);
    proof {
        assert(g.links@ =~= old(g).links@ + chain_links(queue_in as int, 6));
    }
    (queue_in, queue_out)
}

/// The network-fetch node at the head of the audio input chain.
pub open spec fn is_http_source(n: NodeSpec, url: Seq<char>) -> bool {
    &&& n.kind@ == "souphttpsrc"@
    &&& n.props@.len() == 1
    &&& n.props@[0].name@ == "location"@ && (n.props@[0].value matches PropValue::StrVal(s)
        && s@ == url)
}

/// Builds the audio input chain: network fetch from `url`, container
/// demux/parse, audio decode.  Returns the chain's egress node (the
/// decoder).  A fetch failure surfaces later as a control-bus error, not
/// here.
pub fn make_audio_input(g: &mut PipelineGraph, url: &str) -> (r: usize)
    requires
        old(g).wf(),
    ensures
        final(g).wf(),
        final(g).nodes@.len() == old(g).nodes@.len() + 3,
        nodes_kept(*old(g), *final(g)),
        r == old(g).nodes@.len() + 2,
        is_http_source(final(g).nodes@[old(g).nodes@.len() as int], url@),
        is_plain(final(g).nodes@[old(g).nodes@.len() + 1int], "mpegaudioparse"@),
        is_plain(final(g).nodes@[r as int], "mpg123audiodec"@),
        final(g).links@ == old(g).links@ + chain_links(old(g).nodes@.len() as int, 3),
        final(g).ports@ == old(g).ports@,
        final(g).pad_links@ == old(g).pad_links@,
        final(g).state == old(g).state,
{
    let souphttpsrc = make_element(g, "souphttpsrc");
    g.set_property(souphttpsrc, "location", PropValue::StrVal(url.to_owned()));
    let mpegaudioparse = make_element(g, "mpegaudioparse");
    let mpg123audiodec = make_element(g, "mpg123audiodec");

    g.link_nodes(souphttpsrc, mpegaudioparse);
    g.link_nodes(mpegaudioparse, mpg123audiodec);
    proof {
        assert(g.links@ =~= old(g).links@ + chain_links(souphttpsrc as int, 3));
    }
    mpg123audiodec
}

/// The document-rendering source node of the video input chain.
pub open spec fn is_document_source(n: NodeSpec, uri: Seq<char>) -> bool {
    &&& n.kind@ == "wpesrc"@
    &&& n.props@.len() == 1
    &&& n.props@[0].name@ == "location"@ && (n.props@[0].value matches PropValue::StrVal(s)
        && s@ == uri)
}

/// Builds the video input chain: one document-rendering source node that
/// loads the embedded overlay document from an in-memory URI, with no
/// network access.  Returns the chain's (single) egress node.
pub fn make_video_input(g: &mut PipelineGraph, uri: &str) -> (r: usize)
    requires
        old(g).wf(),
    ensures
        final(g).wf(),
        final(g).nodes@.len() == old(g).nodes@.len() + 1,
        nodes_kept(*old(g), *final(g)),
        r == old(g).nodes@.len(),
        is_document_source(final(g).nodes@[r as int], uri@),
        same_wiring(*old(g), *final(g)),
{
    let wpesrc = make_element(g, "wpesrc");
    g.set_property(wpesrc, "location", PropValue::StrVal(uri.to_owned()));
    wpesrc
}

/// The streaming destination of the output chain.
pub enum StreamOutput {
    RTMP { url: String, stream_key: String },
}

/// The output chain: the multiplexer node together with the record of
/// which dynamic input ports have already been granted.  Exactly one
/// video and one audio producer may ever be linked for the lifetime of
/// the graph, so each media kind is granted at most once.
pub struct OutputChain {
    pub mux: usize,
    pub video_port: Option<usize>,
    pub audio_port: Option<usize>,
}

impl OutputChain {
    /// The port already granted for a media kind, if any.
    pub open spec fn port_slot(self, media: MediaKind) -> Option<usize> {
        match media {
            MediaKind::Video => self.video_port,
            MediaKind::Audio => self.audio_port,
        }
    }

    /// A request for a media kind can only be granted while no port has
    /// been granted for that kind.
    pub open spec fn can_request(self, media: MediaKind) -> bool {
        self.port_slot(media) is None
    }

    /// The transition a granted port request makes on the chain: the
    /// requested kind's slot fills with the fresh port, everything else
    /// stays.
    pub open spec fn granted(pre: OutputChain, post: OutputChain, media: MediaKind, p: usize) -> bool {
        &&& pre.can_request(media)
        &&& post.port_slot(media) == Some(p)
        &&& post.mux == pre.mux
        &&& media is Video ==> post.audio_port == pre.audio_port
        &&& media is Audio ==> post.video_port == pre.video_port
    }

    /// Requests a dedicated input port on the multiplexer for a media
    /// kind.  The first request for each kind is granted; requesting the
    /// same kind twice is rejected, so no second producer can ever be
    /// linked to the same kind's port.
    pub fn request_port(&mut self, g: &mut PipelineGraph, media: MediaKind) -> (r: Result<
        usize,
        BuildError,
    >)
        requires
            old(g).wf(),
            old(self).mux < old(g).nodes@.len(),
        ensures
            final(g).wf(),
            r is Ok <==> old(self).can_request(media),
            r matches Ok(p) ==> p == old(g).ports@.len() && OutputChain::granted(
                *old(self),
                *final(self),
                media,
                p,
            ) && final(g).ports@ == old(g).ports@.push(
                (PortSpec { node: old(self).mux, media }),
            ),
            r is Err ==> *final(self) == *old(self) && *final(g) == *old(g) && r == Result::<
                usize,
                BuildError,
            >::Err(BuildError::PortAlreadyRequested),
            final(g).nodes@ == old(g).nodes@,
            final(g).links@ == old(g).links@,
            final(g).pad_links@ == old(g).pad_links@,
            final(g).state == old(g).state,
    {
        let taken = match media {
            MediaKind::Video => self.video_port.is_some(),
            MediaKind::Audio => self.audio_port.is_some(),
        };
        if taken {
            return Err(BuildError::PortAlreadyRequested);
        }
        let p = g.ports.len();
        g.ports.push(PortSpec { node: self.mux, media });
        match media {
            MediaKind::Video => self.video_port = Some(p),
            MediaKind::Audio => self.audio_port = Some(p),
        }
        Ok(p)
    }
}

/// The multiplexer node: a streamable live container with a fixed
/// internal buffering latency of one second to tolerate jitter between
/// the two input branches.
pub open spec fn is_stream_muxer(n: NodeSpec) -> bool {
    &&& n.kind@ == "flvmux"@
    &&& n.props@.len() == 2
    &&& n.props@[0].name@ == "streamable"@ && n.props@[0].value == PropValue::BoolVal(true)
    &&& n.props@[1].name@ == "latency"@ && n.props@[1].value == PropValue::UIntVal(
        1_000_000_000u64,
    )
}

/// The network-publish sink node, targeting the destination URL joined
/// with the stream key.
pub open spec fn is_publish_sink(n: NodeSpec, url: Seq<char>, stream_key: Seq<char>) -> bool {
    &&& n.kind@ == "rtmp2sink"@
    &&& n.props@.len() == 1
    &&& n.props@[0].name@ == "location"@ && (n.props@[0].value matches PropValue::StrVal(s)
        && s@ == url + "/"@ + stream_key)
}

/// Builds the output chain: a streamable multiplexer linked to the
/// network-publish sink, with one dedicated input port requested for
/// video and one for audio.  Returns the chain record and the two port
/// indices for upstream linking.
pub fn make_output(g: &mut PipelineGraph, stream_output: &StreamOutput) -> (r: (
    OutputChain,
    usize,
    usize,
))
    requires
        old(g).wf(),
    ensures
        final(g).wf(),
        final(g).nodes@.len() == old(g).nodes@.len() + 2,
        nodes_kept(*old(g), *final(g)),
        is_stream_muxer(final(g).nodes@[old(g).nodes@.len() as int]),
        stream_output matches StreamOutput::RTMP { url, stream_key } ==> is_publish_sink(
            final(g).nodes@[old(g).nodes@.len() + 1int],
            url@,
            stream_key@,
        ),
        final(g).links@ == old(g).links@.push(
            (
            Link {
                from: (old(g).nodes@.len() as usize),
                to: ((old(g).nodes@.len() + 1) as usize),
            }
            ),
        ),
        final(g).ports@ == old(g).ports@ + seq![
            (PortSpec { node: (old(g).nodes@.len() as usize), media: MediaKind::Video }),
            (PortSpec { node: (old(g).nodes@.len() as usize), media: MediaKind::Audio }),
        ],
        r.1 == old(g).ports@.len(),
        r.2 == old(g).ports@.len() + 1,
        r.0.mux == old(g).nodes@.len(),
        r.0.video_port == Some(r.1),
        r.0.audio_port == Some(r.2),
        final(g).pad_links@ == old(g).pad_links@,
        final(g).state == old(g).state,
{
    match stream_output {
        StreamOutput::RTMP { url, stream_key } => {
            let flvmux = make_element(g, "flvmux");
            g.set_property(flvmux, "streamable", PropValue::BoolVal(true));
            g.set_property(flvmux, "latency", PropValue::UIntVal(1_000_000_000u64));

            let rtmp2sink = make_element(g, "rtmp2sink");
            let location = publish_address(url.as_str(), stream_key.as_str());
            g.set_property(rtmp2sink, "location", PropValue::StrVal(location));

            g.link_nodes(flvmux, rtmp2sink);

            let mut chain = OutputChain { mux: flvmux, video_port: None, audio_port: None };
            let video_port = match chain.request_port(g, MediaKind::Video) {
                Ok(p) => p,
                Err(_) => 0,  // unreachable: a fresh chain has no granted ports
            };
            let audio_port = match chain.request_port(g, MediaKind::Audio) {
                Ok(p) => p,
                Err(_) => 0,  // unreachable: the video grant leaves audio free
            };
            proof {
                assert(g.ports@ =~= old(g).ports@ + seq![
                    (PortSpec { node: (old(g).nodes@.len() as usize), media: MediaKind::Video }),
                    (PortSpec { node: (old(g).nodes@.len() as usize), media: MediaKind::Audio }),
                ]);
            }
            (chain, video_port, audio_port)
        },
    }
}

/// Law: the links a chain builder registers wire its `n` nodes into one
/// unbranched sequence: the chain has exactly `n - 1` internal links, and
/// the `i`-th link connects node `start + i` to node `start + i + 1` and
/// nothing else.
pub proof fn lemma_chain_unbranched(start: int, n: int)
    requires
        0 <= start,
        1 <= n,
        start + n <= usize::MAX,
    ensures
        chain_links(start, n).len() == n - 1,
        forall|i: int|
            0 <= i < n - 1 ==> (#[trigger] chain_links(start, n)[i]).from == start + i
                && chain_links(start, n)[i].to == start + i + 1,
{
}

/// Law: for every frame rate and every encoder variant, the keyframe
/// interval configured on the encoder node equals exactly twice the
/// frame rate.
pub proof fn lemma_keyframe_interval(n: NodeSpec, v: VideoEncoder, bitrate: u32, framerate: u32)
    requires
        is_video_encoder_node(n, v, bitrate, framerate),
    ensures
        n.props@[0].name@ == keyframe_prop(v),
        n.props@[0].value == PropValue::UIntVal(((2 * framerate) as u64)),
{
}

/// Law: once a port request for a media kind has been granted on an
/// output chain, no later request for the same kind on that chain can be
/// granted again.
pub proof fn lemma_port_request_exclusive(
    pre: OutputChain,
    post: OutputChain,
    media: MediaKind,
    p: usize,
)
    requires
        OutputChain::granted(pre, post, media, p),
    ensures
        !post.can_request(media),
{
}

} // verus!
