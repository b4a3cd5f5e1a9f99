use vstd::prelude::*;

use crate::errors::PluginResult;
use crate::lifecycle::AdiosPlugin;

verus! {

/// A schema-free structured document: the open, extensible shape of
/// inter-unit message payloads and acknowledgments. A tagged union of
/// primitives, sequences and string-keyed maps rather than a fixed record,
/// since the messaging contract deliberately leaves room for unit-specific
/// extension.
#[derive(Debug, PartialEq)]
pub enum MessageValue {
    Null,
    Bool(bool),
    Int(i64),
    Text(String),
    Array(Vec<MessageValue>),
    Object(Vec<(String, MessageValue)>),
}

/// The acknowledgment the base message handler returns: an object with the
/// single entry `"status": "received"`.
pub open spec fn spec_is_receipt_ack(v: MessageValue) -> bool {
    &&& v is Object
    &&& v->Object_0@.len() == 1
    &&& v->Object_0@[0].0@ == "status"@
    &&& v->Object_0@[0].1 is Text
    &&& v->Object_0@[0].1->Text_0@ == "received"@
}

impl AdiosPlugin {
    /// Accepts an opaque message from a named sender and returns an
    /// acknowledgment signaling receipt. This base contract reads neither
    /// the sender identity nor the payload, mutates nothing (the receiver is
    /// shared), and always succeeds; a concrete unit may override it with
    /// domain-specific handling and report a `MessageError` instead.
    pub fn handle_plugin_message(&self, _from: &str, _message: MessageValue) -> (r: PluginResult<
        MessageValue,
    >)
        ensures
            r is Ok,
            spec_is_receipt_ack(r->Ok_0),
    {
        let mut entries: Vec<(String, MessageValue)> = Vec::new();
        entries.push(("status".to_owned(), MessageValue::Text("received".to_owned())));
        Ok(MessageValue::Object(entries))
    }
}

} // verus!
