//! The routing rules for inbound messages.
//!
//! A message is matched against a fixed table of interface, path shape and
//! payload variant. It goes to the update queue, to the command executor, to
//! the telemetry configuration handler, or, when no rule matches, nowhere.

use vstd::prelude::*;
use crate::message::{InboundMessage, InboundMessageView, Payload, PayloadView, Scalar, ScalarView};
use crate::path::{
    lemma_name_is_one_segment, lemma_segments_split_at_separator, path_segments, split_path,
};
use crate::text::same_text;

verus! {

/// The interface on which update requests arrive.
pub const OTA_REQUEST_INTERFACE: &'static str = "io.edgehog.devicemanager.OTARequest";

/// The interface on which commands arrive.
pub const COMMANDS_INTERFACE: &'static str = "io.edgehog.devicemanager.Commands";

/// The interface on which changes to the telemetry configuration arrive.
pub const TELEMETRY_CONFIG_INTERFACE: &'static str = "io.edgehog.devicemanager.config.Telemetry";

/// The first segment of every path that a rule accepts.
pub const REQUEST_SEGMENT: &'static str = "request";

/// What the receive loop does with one message.
#[derive(Debug, Clone, PartialEq, Eq)]
pub enum Dispatch<O, V> {
    /// Put the mapping on the update queue.
    Update(O),
    /// Run the command, before the next message is received.
    Command(String),
    /// Hand the change to the telemetry configuration handler, before the
    /// next message is received.
    TelemetryConfig { interface_name: String, endpoint: String, value: Scalar<V> },
    /// No rule matches: warn of the interface and path, and drop the message.
    Unmatched { interface: String, path: String },
    /// The transport failed to deliver a message: log the failure. The loop
    /// goes on, for the transport reconnects by itself.
    ReceiveError(String),
}

/// The mathematical value of a [`Dispatch`].
pub enum DispatchView<O, V> {
    Update(O),
    Command(Seq<char>),
    TelemetryConfig { interface_name: Seq<char>, endpoint: Seq<char>, value: ScalarView<V> },
    Unmatched { interface: Seq<char>, path: Seq<char> },
    ReceiveError(Seq<char>),
}

impl<O, V> View for Dispatch<O, V> {
    type V = DispatchView<O, V>;

    open spec fn view(&self) -> DispatchView<O, V> {
        match self {
            Dispatch::Update(fields) => DispatchView::Update(*fields),
            Dispatch::Command(command) => DispatchView::Command(command@),
            Dispatch::TelemetryConfig { interface_name, endpoint, value } => DispatchView::TelemetryConfig {
                interface_name: interface_name@,
                endpoint: endpoint@,
                value: value@,
            },
            Dispatch::Unmatched { interface, path } => DispatchView::Unmatched {
                interface: interface@,
                path: path@,
            },
            Dispatch::ReceiveError(cause) => DispatchView::ReceiveError(cause@),
        }
    }
}

impl<O, V> DispatchView<O, V> {
    /// Whether a handler runs for the message.
    pub open spec fn runs_handler(self) -> bool {
        self is Update || self is Command || self is TelemetryConfig
    }

    /// Whether a warning is logged for the message.
    pub open spec fn warns(self) -> bool {
        self is Unmatched
    }
}

/// The path has the one segment `request`.
pub open spec fn is_request_path(path: Seq<char>) -> bool {
    path_segments(path) == seq![REQUEST_SEGMENT@]
}

/// The rule for update requests: the update interface, the path `request`,
/// a mapping.
pub open spec fn is_update_request<O, V>(message: InboundMessageView<O, V>) -> bool {
    &&& message.interface == OTA_REQUEST_INTERFACE@
    &&& is_request_path(message.path)
    &&& message.payload is Object
}

/// The rule for commands: the commands interface, the path `request`, a
/// single string.
pub open spec fn is_command<O, V>(message: InboundMessageView<O, V>) -> bool {
    &&& message.interface == COMMANDS_INTERFACE@
    &&& is_request_path(message.path)
    &&& message.payload matches PayloadView::Individual(value)
    &&& value is String
}

/// The rule for telemetry configuration: the configuration interface, a path
/// of `request`, an interface name and an endpoint name, a single value.
pub open spec fn is_telemetry_config<O, V>(message: InboundMessageView<O, V>) -> bool {
    &&& message.interface == TELEMETRY_CONFIG_INTERFACE@
    &&& path_segments(message.path).len() == 3
    &&& path_segments(message.path)[0] == REQUEST_SEGMENT@
    &&& message.payload is Individual
}

/// Where a message goes.
pub open spec fn routed<O, V>(message: InboundMessageView<O, V>) -> DispatchView<O, V> {
    if is_update_request(message) {
        DispatchView::Update(message.payload->Object_0)
    } else if is_command(message) {
        DispatchView::Command(message.payload->Individual_0->String_0)
    } else if is_telemetry_config(message) {
        DispatchView::TelemetryConfig {
            interface_name: path_segments(message.path)[1],
            endpoint: path_segments(message.path)[2],
            value: message.payload->Individual_0,
        }
    } else {
        DispatchView::Unmatched { interface: message.interface, path: message.path }
    }
}

/// Tells whether the segments are the one segment `request`.
fn is_request(segments: &Vec<String>) -> (yes: bool)
    ensures
        yes == (segments.deep_view() == seq![REQUEST_SEGMENT@]),
{
    assert(segments.deep_view().len() == segments.len());
    assert(seq![REQUEST_SEGMENT@].len() == 1);
    assert(seq![REQUEST_SEGMENT@][0] == REQUEST_SEGMENT@);
    if segments.len() == 1 {
        let yes = same_text(segments[0].as_str(), REQUEST_SEGMENT);
        assert(segments.deep_view()[0] == segments[0]@);
        assert(yes ==> segments.deep_view() =~= seq![REQUEST_SEGMENT@]);
        yes
    } else {
        false
    }
}

/// Decides where a message goes.
pub fn route<O, V>(message: InboundMessage<O, V>) -> (dispatch: Dispatch<O, V>)
    ensures
        dispatch@ == routed(message@),
{
    let InboundMessage { interface, path, payload } = message;
    let mut segments = split_path(path.as_str());
    match payload {
        Payload::Object(fields) => {
            if same_text(interface.as_str(), OTA_REQUEST_INTERFACE) && is_request(&segments) {
                Dispatch::Update(fields)
            } else {
                Dispatch::Unmatched { interface, path }
            }
        },
        Payload::Individual(value) => {
            if same_text(interface.as_str(), COMMANDS_INTERFACE) && is_request(&segments) {
                proof {
                    lemma_interfaces_differ();
                }
                match value {
                    Scalar::String(command) => Dispatch::Command(command),
                    Scalar::Other(_) => Dispatch::Unmatched { interface, path },
                }
            } else if same_text(interface.as_str(), TELEMETRY_CONFIG_INTERFACE) && segments.len() == 3
                && same_text(segments[0].as_str(), REQUEST_SEGMENT) {
                assert(segments.deep_view()[0] == segments[0]@);
                assert(segments.deep_view()[1] == segments[1]@);
                assert(segments.deep_view()[2] == segments[2]@);
                let endpoint = segments.pop().unwrap();
                let interface_name = segments.pop().unwrap();
                Dispatch::TelemetryConfig { interface_name, endpoint, value }
            } else {
                assert(segments.len() == 3 ==> segments.deep_view()[0] == segments[0]@);
                Dispatch::Unmatched { interface, path }
            }
        },
    }
}

/// The mathematical value of what the transport hands to the receive loop.
pub open spec fn received_view<O, V>(received: Result<InboundMessage<O, V>, String>) -> Result<
    InboundMessageView<O, V>,
    Seq<char>,
> {
    match received {
        Ok(message) => Ok(message@),
        Err(cause) => Err(cause@),
    }
}

/// What one turn of the receive loop does: a message is routed, a failure of
/// the transport is logged.
pub open spec fn received_outcome<O, V>(received: Result<InboundMessageView<O, V>, Seq<char>>) -> DispatchView<
    O,
    V,
> {
    match received {
        Ok(message) => routed(message),
        Err(cause) => DispatchView::ReceiveError(cause),
    }
}

/// Decides what one turn of the receive loop does with what the transport
/// handed over. No outcome ends the loop.
pub fn receive<O, V>(received: Result<InboundMessage<O, V>, String>) -> (dispatch: Dispatch<O, V>)
    ensures
        dispatch@ == received_outcome(received_view(received)),
{
    match received {
        Ok(message) => route(message),
        Err(cause) => Dispatch::ReceiveError(cause),
    }
}

/// The three interfaces that the rules name are three different names.
pub proof fn lemma_interfaces_differ()
    ensures
        OTA_REQUEST_INTERFACE@ != COMMANDS_INTERFACE@,
        OTA_REQUEST_INTERFACE@ != TELEMETRY_CONFIG_INTERFACE@,
        COMMANDS_INTERFACE@ != TELEMETRY_CONFIG_INTERFACE@,
{
    reveal_strlit("io.edgehog.devicemanager.OTARequest");
    reveal_strlit("io.edgehog.devicemanager.Commands");
    reveal_strlit("io.edgehog.devicemanager.config.Telemetry");
    assert(OTA_REQUEST_INTERFACE@.len() == 35);
    assert(COMMANDS_INTERFACE@.len() == 33);
    assert(TELEMETRY_CONFIG_INTERFACE@.len() == 41);
}

/// The path `/request`, as the platform writes it, has the one segment
/// `request`.
pub proof fn lemma_request_path()
    ensures
        is_request_path("/request"@),
        is_request_path("request"@),
{
    reveal_strlit("/request");
    reveal_strlit("request");
    let name = "request"@;
    lemma_name_is_one_segment(name);
    lemma_segments_split_at_separator(Seq::empty(), name);
    assert("/request"@ =~= Seq::<char>::empty() + seq!['/'] + name);
    assert(path_segments(Seq::<char>::empty()) =~= Seq::<Seq<char>>::empty());
    assert(path_segments("/request"@) =~= seq![name]);
}

/// An update request at `/request` is put on the update queue, and what is
/// put there is the mapping that arrived.
pub proof fn lemma_update_request_is_queued<O, V>(fields: O)
    ensures
        routed(
            (InboundMessageView::<O, V> {
                interface: OTA_REQUEST_INTERFACE@,
                path: "/request"@,
                payload: PayloadView::Object(fields),
            }),
        ) == DispatchView::<O, V>::Update(fields),
{
    lemma_request_path();
}

/// A command at `/request` is run with the text that arrived.
pub proof fn lemma_command_is_run<O, V>(command: Seq<char>)
    ensures
        routed(
            (InboundMessageView::<O, V> {
                interface: COMMANDS_INTERFACE@,
                path: "/request"@,
                payload: PayloadView::Individual(ScalarView::String(command)),
            }),
        ) == DispatchView::<O, V>::Command(command),
{
    lemma_request_path();
    lemma_interfaces_differ();
}

/// No message matches two rules. A message that matches a rule is handed to
/// the handler of that rule and to no other, without a warning; a message
/// that matches none is dropped with a warning, and no handler runs.
pub proof fn lemma_exactly_one_outcome<O, V>(message: InboundMessageView<O, V>)
    ensures
        !(is_update_request(message) && is_command(message)),
        !(is_update_request(message) && is_telemetry_config(message)),
        !(is_command(message) && is_telemetry_config(message)),
        is_update_request(message) <==> routed(message) is Update,
        is_command(message) <==> routed(message) is Command,
        is_telemetry_config(message) <==> routed(message) is TelemetryConfig,
        is_update_request(message) || is_command(message) || is_telemetry_config(message)
            <==> routed(message).runs_handler(),
        routed(message).runs_handler() <==> !routed(message).warns(),
        !(routed(message) is ReceiveError),
{
    lemma_interfaces_differ();
}

} // verus!
