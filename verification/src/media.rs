//! The media pipelines of a Wayland session: which elements they are made of, and what is read
//! from their ends.
use crate::text::{decimal, decimal_u32, opt_text, opt_view};
use vstd::prelude::*;
use vstd::string::*;

verus! {

/// The value of a property of an element.
pub enum PropertyValue {
    Flag(bool),
    Signed(i32),
    Unsigned(u32),
    Text(String),
    /// A value of the element's own type, given by its name.
    Named(String),
    /// Raw sound of a rate and a number of channels.
    RawAudio { rate: i32, channels: i32 },
}

/// An element of a pipeline.
pub struct ElementSpec {
    pub factory: String,
    pub name: Option<String>,
    pub properties: Vec<(String, PropertyValue)>,
    /// What is reported where the element cannot be made.
    pub error: String,
}

/// A value in mathematical terms.
pub enum ValueView {
    Flag(bool),
    Signed(i32),
    Unsigned(u32),
    Text(Seq<char>),
    Named(Seq<char>),
    RawAudio { rate: i32, channels: i32 },
}

impl View for PropertyValue {
    type V = ValueView;

    open spec fn view(&self) -> ValueView {
        match self {
            PropertyValue::Flag(b) => ValueView::Flag(*b),
            PropertyValue::Signed(n) => ValueView::Signed(*n),
            PropertyValue::Unsigned(n) => ValueView::Unsigned(*n),
            PropertyValue::Text(t) => ValueView::Text(t@),
            PropertyValue::Named(t) => ValueView::Named(t@),
            PropertyValue::RawAudio { rate, channels } => ValueView::RawAudio {
                rate: *rate,
                channels: *channels,
            },
        }
    }
}

/// An element in mathematical terms.
#[verifier::ext_equal]
pub struct ElementView {
    pub factory: Seq<char>,
    pub name: Option<Seq<char>>,
    pub properties: Seq<(Seq<char>, ValueView)>,
    pub error: Seq<char>,
}

/// Properties in mathematical terms.
pub open spec fn properties_view(p: Seq<(String, PropertyValue)>) -> Seq<(Seq<char>, ValueView)> {
    p.map_values(|e: (String, PropertyValue)| (e.0@, e.1@))
}

impl View for ElementSpec {
    type V = ElementView;

    open spec fn view(&self) -> ElementView {
        ElementView {
            factory: self.factory@,
            name: opt_text(self.name),
            properties: properties_view(self.properties@),
            error: self.error@,
        }
    }
}

/// Elements in mathematical terms.
pub open spec fn elements_view(v: Seq<ElementSpec>) -> Seq<ElementView> {
    v.map_values(|e: ElementSpec| e@)
}

fn element(factory: &str, name: Option<&str>, error: &str) -> (r: ElementSpec)
    ensures
        r@ == (ElementView {
            factory: factory@,
            name: opt_view(name),
            properties: seq![],
            error: error@,
        }),
{
    let r = ElementSpec {
        factory: factory.to_owned(),
        name: match name {
            Some(n) => Some(n.to_owned()),
            None => None,
        },
        properties: Vec::new(),
        error: error.to_owned(),
    };
    assert(r@.properties =~= seq![]);
    r
}

fn with(e: ElementSpec, name: &str, value: PropertyValue) -> (r: ElementSpec)
    ensures
        r@ == (ElementView { properties: e@.properties.push((name@, value@)), ..e@ }),
{
    let mut r = e;
    r.properties.push((name.to_owned(), value));
    assert(r@.properties =~= e@.properties.push((name@, value@)));
    r
}

// ---------------------------------------------------------------------------
// Picture
// ---------------------------------------------------------------------------

/// The elements that a recorded screen comes in through, before those of the encoder: the stream
/// of a number, with time stamps, and the conversion to what the encoder takes.
pub fn video_source(node_id: u32) -> (r: Vec<ElementSpec>)
    ensures
        elements_view(r@) == seq![
            ElementView {
                factory: "pipewiresrc"@,
                name: Some("src"@),
                properties: seq![
                    ("path"@, ValueView::Text(decimal(node_id as nat))),
                    ("do-timestamp"@, ValueView::Flag(true)),
                ],
                error: "Failed to create pipewiresrc.  Install gstreamer1.0-pipewire on the host."@,
            },
            ElementView {
                factory: "videoconvert"@,
                name: None,
                properties: seq![],
                error: "Failed to create videoconvert"@,
            },
        ],
{
    let source = with(
        with(
            element(
                "pipewiresrc",
                Some("src"),
                "Failed to create pipewiresrc.  Install gstreamer1.0-pipewire on the host.",
            ),
            "path",
            PropertyValue::Text(decimal_u32(node_id)),
        ),
        "do-timestamp",
        PropertyValue::Flag(true),
    );
    let convert = element("videoconvert", None, "Failed to create videoconvert");
    let ghost wanted = ElementView {
        factory: "pipewiresrc"@,
        name: Some("src"@),
        properties: seq![
            ("path"@, ValueView::Text(decimal(node_id as nat))),
            ("do-timestamp"@, ValueView::Flag(true)),
        ],
        error: "Failed to create pipewiresrc.  Install gstreamer1.0-pipewire on the host."@,
    };
    assert(source@ =~= wanted);
    let r = vec![source, convert];
    assert(elements_view(r@) =~= seq![wanted, convert@]);
    r
}

// ---------------------------------------------------------------------------
// Sound
// ---------------------------------------------------------------------------

/// The element that sound comes in through: the default source, or the one that is asked for.
pub open spec fn sound_source(target: Seq<char>) -> ElementView {
    let base = seq![("client-name"@, ValueView::Text("beam-agent-audio"@))];
    ElementView {
        factory: "pipewiresrc"@,
        name: None,
        properties: if target.len() > 0 {
            base.push(("target-object"@, ValueView::Named(target)))
        } else {
            base
        },
        error: "Failed to create pipewiresrc (install gstreamer1.0-pipewire)"@,
    }
}

/// The element that fixes the rate and the channels of the sound.
pub open spec fn sound_caps(rate: i32, channels: i32) -> ElementView {
    ElementView {
        factory: "capsfilter"@,
        name: Some("audio_src_caps"@),
        properties: seq![("caps"@, ValueView::RawAudio { rate, channels })],
        error: "Failed to create audio_src_caps"@,
    }
}

/// An element without properties.
pub open spec fn plain_element(factory: Seq<char>, error: Seq<char>) -> ElementView {
    ElementView { factory, name: None, properties: seq![], error }
}

/// The Opus encoder: 128 kbit/s, in packets of 20 ms.
pub open spec fn opus_encoder() -> ElementView {
    ElementView {
        factory: "opusenc"@,
        name: None,
        properties: seq![
            ("bitrate"@, ValueView::Signed(128_000)),
            ("frame-size"@, ValueView::Named("20"@)),
        ],
        error: "Failed to create opusenc"@,
    }
}

/// The end that packets are taken from, as soon as they are there; none is dropped.
pub open spec fn sound_sink() -> ElementView {
    ElementView {
        factory: "appsink"@,
        name: Some("audio_sink"@),
        properties: seq![
            ("sync"@, ValueView::Flag(false)),
            ("async"@, ValueView::Flag(false)),
            ("emit-signals"@, ValueView::Flag(true)),
            ("max-buffers"@, ValueView::Unsigned(8)),
            ("drop"@, ValueView::Flag(false)),
        ],
        error: "Failed to create audio appsink"@,
    }
}

/// The elements that record sound and encode it, in the order in which they are linked.
pub open spec fn sound_pipeline(rate: i32, channels: i32, target: Seq<char>) -> Seq<ElementView> {
    seq![
        sound_source(target),
        sound_caps(rate, channels),
        plain_element("audioconvert"@, "Failed to create audioconvert"@),
        plain_element("audioresample"@, "Failed to create audioresample"@),
        opus_encoder(),
        plain_element("opusparse"@, "Failed to create opusparse"@),
        sound_sink(),
    ]
}

/// The elements that record sound and encode it, in the order in which they are linked. `target`
/// is the source that is asked for; the default one where it is empty.
pub fn build_audio_pipeline(rate: i32, channels: i32, target: &str) -> (r: Vec<ElementSpec>)
    ensures
        elements_view(r@) == sound_pipeline(rate, channels, target@),
{
    let mut source = with(
        element("pipewiresrc", None, "Failed to create pipewiresrc (install gstreamer1.0-pipewire)"),
        "client-name",
        PropertyValue::Text("beam-agent-audio".to_owned()),
    );
    if !target.is_empty() {
        source = with(source, "target-object", PropertyValue::Named(target.to_owned()));
    }
    assert(source@ =~= sound_source(target@));
    let caps = with(
        element("capsfilter", Some("audio_src_caps"), "Failed to create audio_src_caps"),
        "caps",
        PropertyValue::RawAudio { rate, channels },
    );
    assert(caps@ =~= sound_caps(rate, channels));
    let encoder = with(
        with(
            element("opusenc", None, "Failed to create opusenc"),
            "bitrate",
            PropertyValue::Signed(128_000),
        ),
        "frame-size",
        PropertyValue::Named("20".to_owned()),
    );
    assert(encoder@ =~= opus_encoder());
    let sink = with(
        with(
            with(
                with(
                    with(
                        element("appsink", Some("audio_sink"), "Failed to create audio appsink"),
                        "sync",
                        PropertyValue::Flag(false),
                    ),
                    "async",
                    PropertyValue::Flag(false),
                ),
                "emit-signals",
                PropertyValue::Flag(true),
            ),
            "max-buffers",
            PropertyValue::Unsigned(8),
        ),
        "drop",
        PropertyValue::Flag(false),
    );
    assert(sink@ =~= sound_sink());
    let r = vec![
        source,
        caps,
        element("audioconvert", None, "Failed to create audioconvert"),
        element("audioresample", None, "Failed to create audioresample"),
        encoder,
        element("opusparse", None, "Failed to create opusparse"),
        sink,
    ];
    assert(elements_view(r@) =~= sound_pipeline(rate, channels, target@));
    r
}

// ---------------------------------------------------------------------------
// The ends
// ---------------------------------------------------------------------------

/// What the end of a pipeline gives.
pub enum Received {
    Data(Vec<u8>),
    /// Nothing yet.
    Empty,
    /// The pipeline is gone.
    Gone,
}

/// An encoded frame, where there is one.
pub fn pull_encoded(received: Received) -> (r: Result<Option<Vec<u8>>, String>)
    ensures
        match received {
            Received::Data(data) => r == Ok::<Option<Vec<u8>>, String>(Some(data)),
            Received::Empty => r == Ok::<Option<Vec<u8>>, String>(None),
            Received::Gone => r matches Err(e) && e@ == "WaylandCapture pipeline disconnected"@,
        },
{
    match received {
        Received::Data(data) => Ok(Some(data)),
        Received::Empty => Ok(None),
        Received::Gone => Err("WaylandCapture pipeline disconnected".to_owned()),
    }
}

/// A packet of sound: an empty one where none came in time, so that the sender does not stall.
/// `failed` says whether the pipeline has reported an error.
pub fn capture_and_encode(failed: bool, received: Received) -> (r: Result<Vec<u8>, String>)
    ensures
        if failed {
            r matches Err(e) && e@
                == "WaylandAudio pipeline is in an error state; recreate it"@
        } else {
            match received {
                Received::Data(data) => r == Ok::<Vec<u8>, String>(data),
                Received::Empty => r matches Ok(v) && v@.len() == 0,
                Received::Gone => r matches Err(e) && e@ == "audio pipeline channel disconnected"@,
            }
        },
{
    if failed {
        return Err("WaylandAudio pipeline is in an error state; recreate it".to_owned());
    }
    match received {
        Received::Data(data) => Ok(data),
        Received::Empty => Ok(Vec::new()),
        Received::Gone => Err("audio pipeline channel disconnected".to_owned()),
    }
}

// ---------------------------------------------------------------------------
// Laws
// ---------------------------------------------------------------------------

/// What comes out of a pipeline is handed on as it is; nothing yet is no frame, and an empty packet
/// of sound; and a pipeline that is gone, or has failed, is an error.
pub proof fn ends_hand_on_what_comes(
    received: Received,
    failed: bool,
    v: Result<Option<Vec<u8>>, String>,
    a: Result<Vec<u8>, String>,
)
    requires
        call_ensures(pull_encoded, (received,), v),
        call_ensures(capture_and_encode, (failed, received), a),
    ensures
        received matches Received::Data(d) ==> v == Ok::<Option<Vec<u8>>, String>(Some(d)),
        received is Empty ==> v == Ok::<Option<Vec<u8>>, String>(None),
        v is Err <==> received is Gone,
        a is Err <==> failed || received is Gone,
        !failed && received is Data ==> a == Ok::<Vec<u8>, String>(received->Data_0),
        !failed && received is Empty ==> (a matches Ok(p) && p@.len() == 0),
{
}

/// The stream of the given number is what is recorded, with time stamps; and sound comes from the
/// source that is asked for, where one is, at the given rate and channels, to an encoder of 128
/// kbit/s.
pub proof fn pipelines_record_what_is_asked_for(
    node_id: u32,
    v: Vec<ElementSpec>,
    rate: i32,
    channels: i32,
    target: &str,
    a: Vec<ElementSpec>,
)
    requires
        call_ensures(video_source, (node_id,), v),
        call_ensures(build_audio_pipeline, (rate, channels, target), a),
    ensures
        v@.len() == 2,
        elements_view(v@)[0].factory == "pipewiresrc"@,
        elements_view(v@)[0].properties.contains(
            ("path"@, ValueView::Text(decimal(node_id as nat))),
        ),
        elements_view(v@)[0].properties.contains(("do-timestamp"@, ValueView::Flag(true))),
        a@.len() == 7,
        elements_view(a@)[0].properties.len() == if target@.len() > 0 {
            2int
        } else {
            1
        },
        target@.len() > 0 ==> elements_view(a@)[0].properties.last() == (
            "target-object"@,
            ValueView::Named(target@),
        ),
        elements_view(a@)[1].properties == seq![("caps"@, ValueView::RawAudio { rate, channels })],
        elements_view(a@)[4].properties.contains(("bitrate"@, ValueView::Signed(128_000))),
{
    assert(elements_view(v@).len() == v@.len());
    assert(elements_view(a@).len() == a@.len());
    assert(elements_view(v@)[0].properties[0] == (
        "path"@,
        ValueView::Text(decimal(node_id as nat)),
    ));
    assert(elements_view(v@)[0].properties[1] == ("do-timestamp"@, ValueView::Flag(true)));
    assert(elements_view(a@)[4].properties[0] == ("bitrate"@, ValueView::Signed(128_000)));
}

/// A recording of sound goes from its source through the format, the conversions, the encoder with
/// its packets of twenty milliseconds and the parser to the sink, which gives each packet as soon as
/// it is there and loses none. Each element that cannot be made is told by its name.
pub proof fn sound_goes_through_its_elements(
    rate: i32,
    channels: i32,
    target: &str,
    a: Vec<ElementSpec>,
    node_id: u32,
    v: Vec<ElementSpec>,
    i: int,
)
    requires
        call_ensures(build_audio_pipeline, (rate, channels, target), a),
        call_ensures(video_source, (node_id,), v),
        0 <= i < 7,
    ensures
        ({
            let e = elements_view(a@);
            let p = elements_view(v@);
            &&& e.len() == 7
            &&& e[0].factory == "pipewiresrc"@ && e[0].name is None && e[0].error
                == "Failed to create pipewiresrc (install gstreamer1.0-pipewire)"@
            &&& e[0].properties[0] == ("client-name"@, ValueView::Text("beam-agent-audio"@))
            &&& e[1].factory == "capsfilter"@ && e[1].name == Some("audio_src_caps"@) && e[1].error
                == "Failed to create audio_src_caps"@
            &&& e[2].factory == "audioconvert"@ && e[2].error == "Failed to create audioconvert"@
            &&& e[3].factory == "audioresample"@ && e[3].error == "Failed to create audioresample"@
            &&& e[4].factory == "opusenc"@ && e[4].error == "Failed to create opusenc"@
            &&& e[4].properties == seq![
                ("bitrate"@, ValueView::Signed(128_000)),
                ("frame-size"@, ValueView::Named("20"@)),
            ]
            &&& e[5].factory == "opusparse"@ && e[5].error == "Failed to create opusparse"@
            &&& e[6].factory == "appsink"@ && e[6].name == Some("audio_sink"@) && e[6].error
                == "Failed to create audio appsink"@
            &&& e[6].properties == seq![
                ("sync"@, ValueView::Flag(false)),
                ("async"@, ValueView::Flag(false)),
                ("emit-signals"@, ValueView::Flag(true)),
                ("max-buffers"@, ValueView::Unsigned(8)),
                ("drop"@, ValueView::Flag(false)),
            ]
            &&& i == 2 || i == 3 || i == 5 ==> e[i].name is None && e[i].properties.len() == 0
            &&& p[0].name == Some("src"@) && p[0].properties.len() == 2
            &&& p[0].error
                == "Failed to create pipewiresrc.  Install gstreamer1.0-pipewire on the host."@
            &&& p[1].factory == "videoconvert"@ && p[1].name is None && p[1].properties.len() == 0
            &&& p[1].error == "Failed to create videoconvert"@
        }),
{
}

/// An end that is gone, and a recording that has failed, are told by what they are.
pub proof fn lost_ends_are_told(
    received: Received,
    failed: bool,
    v: Result<Option<Vec<u8>>, String>,
    a: Result<Vec<u8>, String>,
)
    requires
        call_ensures(pull_encoded, (received,), v),
        call_ensures(capture_and_encode, (failed, received), a),
    ensures
        received is Gone ==> (v matches Err(e) && e@ == "WaylandCapture pipeline disconnected"@),
        failed ==> (a matches Err(e) && e@
            == "WaylandAudio pipeline is in an error state; recreate it"@),
        !failed && received is Gone ==> (a matches Err(e) && e@
            == "audio pipeline channel disconnected"@),
{
}

} // verus!
