//! Message types for the store plugin.
use vstd::prelude::*;
use vstd::string::*;

verus! {

/// Public input API that applications use to interact with the store plugin.
#[derive(Debug, PartialEq, Eq)]
pub enum StoreInput {
    /// Set a value in the store.
    SetValue { group: String, key: String, value: String },
    /// Get a value from the store.
    Get { group: String, key: String },
    /// Delete a value from the store.
    Delete { group: String, key: String },
}

/// Messages that the store plugin handles: the inputs, and the results of
/// the disk operations that the plugin asked for.
#[derive(Debug, PartialEq, Eq)]
pub enum StoreMessage {
    /// Set a value.
    SetValue { group: String, key: String, value: String },
    /// Get a value.
    Get { group: String, key: String },
    /// Delete a value.
    Delete { group: String, key: String },
    /// A group was saved, or could not be.
    SaveResult { group: String, success: bool },
    /// A group was loaded and a key looked up in it.
    GetResult { group: String, key: String, value: Option<String> },
}

/// Output messages emitted by the store plugin.
#[derive(Debug, PartialEq, Eq)]
pub enum StoreOutput {
    /// A value was set successfully.
    ValueSet { group: String, key: String },
    /// A value was retrieved.
    Get { group: String, key: String, value: String },
    /// A value was not found.
    NotFound { group: String, key: String },
    /// A value was deleted successfully.
    Deleted { group: String, key: String },
    /// An error occurred.
    Error { message: String },
}

/// A [`StoreMessage`] with its texts.
pub enum StoreMessageView {
    SetValue { group: Seq<char>, key: Seq<char>, value: Seq<char> },
    Get { group: Seq<char>, key: Seq<char> },
    Delete { group: Seq<char>, key: Seq<char> },
    SaveResult { group: Seq<char>, success: bool },
    GetResult { group: Seq<char>, key: Seq<char>, value: Option<Seq<char>> },
}

/// A [`StoreOutput`] with its texts.
pub enum StoreOutputView {
    ValueSet { group: Seq<char>, key: Seq<char> },
    Get { group: Seq<char>, key: Seq<char>, value: Seq<char> },
    NotFound { group: Seq<char>, key: Seq<char> },
    Deleted { group: Seq<char>, key: Seq<char> },
    Error { message: Seq<char> },
}

impl View for StoreMessage {
    type V = StoreMessageView;

    open spec fn view(&self) -> StoreMessageView {
        match self {
            StoreMessage::SetValue { group, key, value } => StoreMessageView::SetValue {
                group: group@,
                key: key@,
                value: value@,
            },
            StoreMessage::Get { group, key } => StoreMessageView::Get { group: group@, key: key@ },
            StoreMessage::Delete { group, key } => StoreMessageView::Delete {
                group: group@,
                key: key@,
            },
            StoreMessage::SaveResult { group, success } => StoreMessageView::SaveResult {
                group: group@,
                success: *success,
            },
            StoreMessage::GetResult { group, key, value } => StoreMessageView::GetResult {
                group: group@,
                key: key@,
                value: match value {
                    Some(text) => Some(text@),
                    None => None,
                },
            },
        }
    }
}

impl View for StoreInput {
    type V = StoreMessageView;

    /// An input is the message of the same name.
    open spec fn view(&self) -> StoreMessageView {
        match self {
            StoreInput::SetValue { group, key, value } => StoreMessageView::SetValue {
                group: group@,
                key: key@,
                value: value@,
            },
            StoreInput::Get { group, key } => StoreMessageView::Get { group: group@, key: key@ },
            StoreInput::Delete { group, key } => StoreMessageView::Delete {
                group: group@,
                key: key@,
            },
        }
    }
}

impl View for StoreOutput {
    type V = StoreOutputView;

    open spec fn view(&self) -> StoreOutputView {
        match self {
            StoreOutput::ValueSet { group, key } => StoreOutputView::ValueSet { group: group@, key: key@ },
            StoreOutput::Get { group, key, value } => StoreOutputView::Get {
                group: group@,
                key: key@,
                value: value@,
            },
            StoreOutput::NotFound { group, key } => StoreOutputView::NotFound {
                group: group@,
                key: key@,
            },
            StoreOutput::Deleted { group, key } => StoreOutputView::Deleted {
                group: group@,
                key: key@,
            },
            StoreOutput::Error { message } => StoreOutputView::Error { message: message@ },
        }
    }
}

impl StoreInput {
    /// Create a Set input from a value that is already serialized as JSON.
    pub fn set(group: &str, key: &str, value: String) -> (input: Self)
        ensures
            input@ == (StoreMessageView::SetValue { group: group@, key: key@, value: value@ }),
    {
        StoreInput::SetValue { group: String::from_str(group), key: String::from_str(key), value }
    }

    /// Create a Get input.
    pub fn get(group: &str, key: &str) -> (input: Self)
        ensures
            input@ == (StoreMessageView::Get { group: group@, key: key@ }),
    {
        StoreInput::Get { group: String::from_str(group), key: String::from_str(key) }
    }

    /// Create a Delete input.
    pub fn delete(group: &str, key: &str) -> (input: Self)
        ensures
            input@ == (StoreMessageView::Delete { group: group@, key: key@ }),
    {
        StoreInput::Delete { group: String::from_str(group), key: String::from_str(key) }
    }

    /// The message that asks the plugin for what this input asks.
    pub fn into_message(self) -> (message: StoreMessage)
        ensures
            message@ == self@,
    {
        match self {
            StoreInput::SetValue { group, key, value } => StoreMessage::SetValue { group, key, value },
            StoreInput::Get { group, key } => StoreMessage::Get { group, key },
            StoreInput::Delete { group, key } => StoreMessage::Delete { group, key },
        }
    }
}

impl From<StoreInput> for StoreMessage {
    fn from(input: StoreInput) -> (message: StoreMessage) {
        match input {
            StoreInput::SetValue { group, key, value } => StoreMessage::SetValue {
                group,
                key,
                value,
            },
            StoreInput::Get { group, key } => StoreMessage::Get { group, key },
            StoreInput::Delete { group, key } => StoreMessage::Delete { group, key },
        }
    }
}

impl vstd::std_specs::convert::FromSpecImpl<StoreInput> for StoreMessage {
    open spec fn obeys_from_spec() -> bool {
        true
    }

    /// An input becomes the message of the same name, with the same group,
    /// key and value.
    open spec fn from_spec(input: StoreInput) -> StoreMessage {
        match input {
            StoreInput::SetValue { group, key, value } => StoreMessage::SetValue {
                group,
                key,
                value,
            },
            StoreInput::Get { group, key } => StoreMessage::Get { group, key },
            StoreInput::Delete { group, key } => StoreMessage::Delete { group, key },
        }
    }
}

impl StoreOutput {
    /// The JSON text of a retrieved value: there if this is a `Get` output.
    pub fn value_text(&self) -> (text: Option<&String>)
        ensures
            match self@ {
                StoreOutputView::Get { value, .. } => text matches Some(found) && found@ == value,
                _ => text is None,
            },
    {
        match self {
            StoreOutput::Get { value, .. } => Some(value),
            _ => None,
        }
    }
}

impl Clone for StoreInput {
    fn clone(&self) -> (copy: Self)
        ensures
            copy@ == self@,
    {
        match self {
            StoreInput::SetValue { group, key, value } => StoreInput::SetValue {
                group: group.clone(),
                key: key.clone(),
                value: value.clone(),
            },
            StoreInput::Get { group, key } => StoreInput::Get {
                group: group.clone(),
                key: key.clone(),
            },
            StoreInput::Delete { group, key } => StoreInput::Delete {
                group: group.clone(),
                key: key.clone(),
            },
        }
    }
}

impl Clone for StoreMessage {
    fn clone(&self) -> (copy: Self)
        ensures
            copy@ == self@,
    {
        match self {
            StoreMessage::SetValue { group, key, value } => StoreMessage::SetValue {
                group: group.clone(),
                key: key.clone(),
                value: value.clone(),
            },
            StoreMessage::Get { group, key } => StoreMessage::Get {
                group: group.clone(),
                key: key.clone(),
            },
            StoreMessage::Delete { group, key } => StoreMessage::Delete {
                group: group.clone(),
                key: key.clone(),
            },
            StoreMessage::SaveResult { group, success } => StoreMessage::SaveResult {
                group: group.clone(),
                success: *success,
            },
            StoreMessage::GetResult { group, key, value } => StoreMessage::GetResult {
                group: group.clone(),
                key: key.clone(),
                value: match value {
                    Some(text) => Some(text.clone()),
                    None => None,
                },
            },
        }
    }
}

impl Clone for StoreOutput {
    fn clone(&self) -> (copy: Self)
        ensures
            copy@ == self@,
    {
        match self {
            StoreOutput::ValueSet { group, key } => StoreOutput::ValueSet {
                group: group.clone(),
                key: key.clone(),
            },
            StoreOutput::Get { group, key, value } => StoreOutput::Get {
                group: group.clone(),
                key: key.clone(),
                value: value.clone(),
            },
            StoreOutput::NotFound { group, key } => StoreOutput::NotFound {
                group: group.clone(),
                key: key.clone(),
            },
            StoreOutput::Deleted { group, key } => StoreOutput::Deleted {
                group: group.clone(),
                key: key.clone(),
            },
            StoreOutput::Error { message } => StoreOutput::Error { message: message.clone() },
        }
    }
}

} // verus!
