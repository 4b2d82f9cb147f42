//! Type-erased envelopes: a payload of some plugin-chosen type, the runtime
//! tag of that type, and the slot the envelope belongs to.
use std::any::Any;
use std::any::TypeId;
use std::sync::Arc;
use vstd::prelude::*;

verus! {

/// `std::any::TypeId`, carried as an opaque value that can only be copied and
/// compared.
#[verifier::external_type_specification]
#[verifier::external_body]
pub struct ExTypeId(TypeId);

/// A shared value whose concrete type has been erased.
///
/// Holds an `Arc<dyn Any + Send + Sync>`. The contracts treat a payload as
/// an opaque value: what it holds is spoken of through [`wraps`], and read
/// back through `payload_ref`.
#[verifier::external_body]
#[derive(Debug)]
pub struct Payload {
    inner: Arc<dyn Any + Send + Sync>,
}

/// `Arc::clone`: the copy shares the allocation, so it holds the very same
/// value.
#[verifier::external_body]
pub(crate) fn share(payload: &Payload) -> (copy: Payload)
    ensures
        copy == *payload,
{
    Payload { inner: Arc::clone(&payload.inner) }
}

/// `TypeId::of::<T>()`. Nothing is claimed of the identifier itself; that
/// an identifier came from here is spoken of through [`is_tag_of`].
#[verifier::external_body]
fn tag_of<T: 'static>() -> (tag: TypeId) {
    TypeId::of::<T>()
}

/// `tag` is an identifier that was computed for the type `T`.
pub closed spec fn is_tag_of<T: 'static>(tag: TypeId) -> bool {
    call_ensures(tag_of::<T>, (), tag)
}

/// `TypeId::of::<T>()`, called through [`tag_of`]: the identifier that comes
/// back is an identifier of `T`, and `T` has no other. This rests on the
/// standard library, where a type's identifier is the same at every call.
#[verifier::external_body]
pub(crate) fn type_tag<T: 'static>() -> (tag: TypeId)
    ensures
        is_tag_of::<T>(tag),
        forall|other: TypeId| #[trigger] is_tag_of::<T>(other) ==> other == tag,
{
    tag_of::<T>()
}

/// `TypeId::eq`: two identifiers compare equal exactly when they are the same
/// identifier.
#[verifier::external_body]
pub(crate) fn same_tag(a: &TypeId, b: &TypeId) -> (same: bool)
    ensures
        same == (*a == *b),
{
    a.eq(b)
}

/// `Arc::new` followed by the unsizing coercion to `dyn Any`. What the
/// payload holds is spoken of through [`wraps`].
#[verifier::external_body]
fn erase<M: Send + Sync + 'static>(value: M) -> (payload: Payload) {
    Payload { inner: Arc::new(value) }
}

/// `value` with its type erased.
pub(crate) fn wrap<M: Send + Sync + 'static>(value: M) -> (payload: Payload)
    ensures
        wraps(payload, value),
{
    erase(value)
}

/// `<dyn Any>::downcast_ref`: a payload made by erasing `value` as an `M`
/// hands that same `value` back when asked for an `M`.
#[verifier::external_body]
pub(crate) fn payload_ref<M: Send + Sync + 'static>(payload: &Payload) -> (found: Option<&M>)
    ensures
        forall|value: M| #[trigger] wraps(*payload, value) ==> found == Some(&value),
        found matches Some(typed) ==> wraps(*payload, *typed),
{
    payload.inner.downcast_ref::<M>()
}

/// `payload` is what erasing `value`, as a value of type `M`, produced.
pub closed spec fn wraps<M: Send + Sync + 'static>(payload: Payload, value: M) -> bool {
    call_ensures(erase::<M>, (value,), payload)
}

/// A message for the plugin installed at `plugin_index`, with its concrete
/// type erased.
#[derive(Debug)]
pub struct PluginMessage {
    plugin_index: usize,
    message: Payload,
    type_id: TypeId,
}

impl PluginMessage {
    /// The slot this message is addressed to.
    pub closed spec fn slot(&self) -> usize {
        self.plugin_index
    }

    /// The erased message.
    pub closed spec fn payload(&self) -> Payload {
        self.message
    }

    /// The runtime tag of the message's concrete type.
    pub closed spec fn type_tag(&self) -> TypeId {
        self.type_id
    }

    /// Wraps `message` for the plugin at `plugin_index`, tagging it with the
    /// runtime identifier of `M`.
    pub fn new<M: 'static + Send + Sync>(plugin_index: usize, message: M) -> (envelope: Self)
        ensures
            envelope.slot() == plugin_index,
            is_tag_of::<M>(envelope.type_tag()),
            wraps(envelope.payload(), message),
    {
        PluginMessage { plugin_index, type_id: type_tag::<M>(), message: erase(message) }
    }

    /// Wraps `message` for the plugin at `plugin_index` under a tag that was
    /// computed earlier.
    pub(crate) fn tagged<M: 'static + Send + Sync>(
        plugin_index: usize,
        message: M,
        type_id: TypeId,
    ) -> (envelope: Self)
        ensures
            envelope.slot() == plugin_index,
            envelope.type_tag() == type_id,
            wraps(envelope.payload(), message),
    {
        PluginMessage { plugin_index, type_id, message: erase(message) }
    }

    /// Get the plugin index this message is for.
    pub fn plugin_index(&self) -> (index: usize)
        ensures
            index == self.slot(),
    {
        self.plugin_index
    }

    /// Whether the message carries the tag `tag`.
    pub fn has_tag(&self, tag: &TypeId) -> (same: bool)
        ensures
            same == (self.type_tag() == *tag),
    {
        same_tag(&self.type_id, tag)
    }

    pub(crate) fn payload_of(&self) -> (payload: &Payload)
        ensures
            *payload == self.payload(),
    {
        &self.message
    }
}

impl Clone for PluginMessage {
    fn clone(&self) -> (copy: Self)
        ensures
            copy == *self,
    {
        PluginMessage {
            plugin_index: self.plugin_index,
            message: share(&self.message),
            type_id: self.type_id,
        }
    }
}

/// An output emitted by the plugin installed at `plugin_index`, with its
/// concrete type erased.
#[derive(Debug)]
pub struct PluginOutput {
    plugin_index: usize,
    output: Payload,
    type_id: TypeId,
}

impl PluginOutput {
    /// The slot this output comes from.
    pub closed spec fn slot(&self) -> usize {
        self.plugin_index
    }

    /// The erased output.
    pub closed spec fn payload(&self) -> Payload {
        self.output
    }

    /// The runtime tag of the output's concrete type.
    pub closed spec fn type_tag(&self) -> TypeId {
        self.type_id
    }

    /// Wraps `output` as coming from the plugin at `plugin_index`, tagging it
    /// with the runtime identifier of `O`.
    pub fn new<O: 'static + Send + Sync>(plugin_index: usize, output: O) -> (envelope: Self)
        ensures
            envelope.slot() == plugin_index,
            is_tag_of::<O>(envelope.type_tag()),
            wraps(envelope.payload(), output),
    {
        PluginOutput { plugin_index, type_id: type_tag::<O>(), output: erase(output) }
    }

    /// Tags an already erased output with its slot and type tag.
    pub(crate) fn from_parts(plugin_index: usize, output: Payload, type_id: TypeId) -> (envelope:
        Self)
        ensures
            envelope.slot() == plugin_index,
            envelope.payload() == output,
            envelope.type_tag() == type_id,
    {
        PluginOutput { plugin_index, output, type_id }
    }

    /// Get the plugin index this output is from.
    pub fn plugin_index(&self) -> (index: usize)
        ensures
            index == self.slot(),
    {
        self.plugin_index
    }

    /// Whether the output carries the tag `tag`.
    pub fn has_tag(&self, tag: &TypeId) -> (same: bool)
        ensures
            same == (self.type_tag() == *tag),
    {
        same_tag(&self.type_id, tag)
    }

    /// The output as an `O`, provided that its tag is `tag`.
    ///
    /// Under any other tag the answer is `None`, whatever the payload holds.
    pub fn downcast_tagged<O: 'static + Send + Sync>(&self, tag: &TypeId) -> (found: Option<&O>)
        ensures
            self.type_tag() != *tag ==> found is None,
            self.type_tag() == *tag ==> forall|value: O|
                wraps(self.payload(), value) ==> found == Some(&value),
            found matches Some(typed) ==> wraps(self.payload(), *typed),
    {
        if same_tag(&self.type_id, tag) {
            payload_ref::<O>(&self.output)
        } else {
            None
        }
    }

    /// Try to downcast the output to a specific type.
    ///
    /// The output's tag is held against the identifier of `O`: under another
    /// tag the answer is `None`, under that tag it is the value that was
    /// wrapped.
    pub fn downcast<O: 'static + Send + Sync>(&self) -> (found: Option<&O>)
        ensures
            !is_tag_of::<O>(self.type_tag()) ==> found is None,
            is_tag_of::<O>(self.type_tag()) ==> forall|value: O|
                wraps(self.payload(), value) ==> found == Some(&value),
            found matches Some(typed) ==> wraps(self.payload(), *typed),
    {
        let tag = type_tag::<O>();
        self.downcast_tagged::<O>(&tag)
    }
}

impl Clone for PluginOutput {
    fn clone(&self) -> (copy: Self)
        ensures
            copy == *self,
    {
        PluginOutput {
            plugin_index: self.plugin_index,
            output: share(&self.output),
            type_id: self.type_id,
        }
    }
}

} // verus!
