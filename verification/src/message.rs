//! The messages of the daemon's notification protocol.

use vstd::prelude::*;

verus! {

/// `serde_json::Value`, an arbitrary JSON document. Nothing here looks inside
/// one: it is only carried along.
#[verifier::external_type_specification]
#[verifier::external_body]
pub struct ExJsonValue(serde_json::Value);

/// A notification pushed by the daemon. On the wire each one is a JSON object
/// with a single key, the variant's name, whose value holds the fields.
#[derive(Debug)]
pub enum ServerMessage {
    LayerChange { new: String },
    LayerNames { names: Vec<String> },
    CurrentLayerInfo { name: String, cfg_text: String },
    ConfigFileReload { new: String },
    CurrentLayerName { name: String },
    MessagePush { message: serde_json::Value },
    Error { msg: String },
}

/// The daemon's answer to a request. This client sends no requests and so
/// never reads one; the type completes the protocol's schema.
#[derive(Debug)]
pub enum ServerResponse {
    /// The request was carried out (`"status": "Ok"` on the wire).
    Okay,
    /// The request was refused, with the daemon's reason.
    Error { msg: String },
}

/// The mathematical content of a [`ServerMessage`].
pub enum MessageView {
    LayerChange { new: Seq<char> },
    LayerNames { names: Seq<Seq<char>> },
    CurrentLayerInfo { name: Seq<char>, cfg_text: Seq<char> },
    ConfigFileReload { new: Seq<char> },
    CurrentLayerName { name: Seq<char> },
    MessagePush { message: serde_json::Value },
    Error { msg: Seq<char> },
}

impl View for ServerMessage {
    type V = MessageView;

    open spec fn view(&self) -> MessageView {
        match self {
            ServerMessage::LayerChange { new } => MessageView::LayerChange { new: new@ },
            ServerMessage::LayerNames { names } => MessageView::LayerNames {
                names: names.deep_view(),
            },
            ServerMessage::CurrentLayerInfo { name, cfg_text } => MessageView::CurrentLayerInfo {
                name: name@,
                cfg_text: cfg_text@,
            },
            ServerMessage::ConfigFileReload { new } => MessageView::ConfigFileReload { new: new@ },
            ServerMessage::CurrentLayerName { name } => MessageView::CurrentLayerName {
                name: name@,
            },
            ServerMessage::MessagePush { message } => MessageView::MessagePush {
                message: *message,
            },
            ServerMessage::Error { msg } => MessageView::Error { msg: msg@ },
        }
    }
}

impl MessageView {
    /// The layer that the message announces a change to, if it announces one.
    pub open spec fn layer_change(self) -> Option<Seq<char>> {
        match self {
            MessageView::LayerChange { new } => Some(new),
            _ => None,
        }
    }
}

impl ServerMessage {
    /// Takes the message apart: the new layer's name out of a `LayerChange`,
    /// nothing out of any other message.
    pub fn into_layer_change(self) -> (layer: Option<String>)
        ensures
            match layer {
                Some(name) => self@.layer_change() == Some(name@),
                None => self@.layer_change() is None,
            },
    {
        match self {
            ServerMessage::LayerChange { new } => Some(new),
            _ => None,
        }
    }
}

} // verus!
