//! The message filter: which kinds of message are shown.

use vstd::prelude::*;
use crate::model::message::MessageType;

verus! {

/// A set of message kinds.
#[derive(Clone, Copy, Debug)]
pub struct TypeSet {
    system: bool,
    user: bool,
    assistant: bool,
    tool_call: bool,
    tool_result: bool,
}

impl TypeSet {
    /// Membership of one kind.
    pub closed spec fn has(self, t: MessageType) -> bool {
        match t {
            MessageType::System => self.system,
            MessageType::User => self.user,
            MessageType::Assistant => self.assistant,
            MessageType::ToolCall => self.tool_call,
            MessageType::ToolResult => self.tool_result,
        }
    }
}

impl View for TypeSet {
    type V = Set<MessageType>;

    open spec fn view(&self) -> Set<MessageType> {
        Set::new(|t: MessageType| self.has(t))
    }
}

/// The set that holds the five kinds.
pub open spec fn all_types() -> Set<MessageType> {
    set![
        MessageType::System,
        MessageType::User,
        MessageType::Assistant,
        MessageType::ToolCall,
        MessageType::ToolResult,
    ]
}

/// The display label of a filter whose allowed kinds are `s`.
pub open spec fn spec_label(s: Set<MessageType>) -> Seq<char> {
    if s.is_empty() {
        "ALL"@
    } else if s == set![MessageType::System] {
        "SYSTEM"@
    } else if s == set![MessageType::User] {
        "USER"@
    } else if s == set![MessageType::Assistant] {
        "ASSISTANT"@
    } else if s == set![MessageType::ToolCall] || s == set![MessageType::ToolResult] || s
        == set![MessageType::ToolCall, MessageType::ToolResult] {
        "TOOLS"@
    } else {
        "CUSTOM"@
    }
}

/// The set after toggling `t`: removed when present, added when absent.
pub open spec fn toggled(s: Set<MessageType>, t: MessageType) -> Set<MessageType> {
    if s.contains(t) {
        s.remove(t)
    } else {
        s.insert(t)
    }
}

impl TypeSet {
    /// The empty set.
    pub fn empty() -> (r: TypeSet)
        ensures
            r@ == Set::<MessageType>::empty(),
    {
        let r = TypeSet {
            system: false,
            user: false,
            assistant: false,
            tool_call: false,
            tool_result: false,
        };
        assert(r@ =~= Set::<MessageType>::empty());
        r
    }

    /// The set of the given kinds.
    pub fn from_slice(types: &[MessageType]) -> (r: TypeSet)
        ensures
            r@ == types@.to_set(),
    {
        let mut r = TypeSet::empty();
        let mut i: usize = 0;
        while i < types.len()
            invariant
                i <= types@.len(),
                r@ == types@.take(i as int).to_set(),
            decreases types@.len() - i,
        {
            r.insert(types[i]);
            proof {
                assert(types@.take(i as int + 1) =~= types@.take(i as int).push(types@[i as int]));
                types@.take(i as int).lemma_push_to_set_commute(types@[i as int]);
            }
            i = i + 1;
        }
        assert(types@.take(types@.len() as int) =~= types@);
        r
    }

    /// `true` when no kind is in the set.
    pub fn is_empty(&self) -> (r: bool)
        ensures
            r == self@.is_empty(),
    {
        proof {
            if !self@.is_empty() {
                let t = self@.choose();
                assert(self@.contains(t));
            } else {
                assert(!self@.contains(MessageType::System));
                assert(!self@.contains(MessageType::User));
                assert(!self@.contains(MessageType::Assistant));
                assert(!self@.contains(MessageType::ToolCall));
                assert(!self@.contains(MessageType::ToolResult));
            }
        }
        !(self.system || self.user || self.assistant || self.tool_call || self.tool_result)
    }

    /// Membership test.
    pub fn contains(&self, t: &MessageType) -> (r: bool)
        ensures
            r == self@.contains(*t),
    {
        match t {
            MessageType::System => self.system,
            MessageType::User => self.user,
            MessageType::Assistant => self.assistant,
            MessageType::ToolCall => self.tool_call,
            MessageType::ToolResult => self.tool_result,
        }
    }

    /// Adds `t`; returns `true` when it was absent.
    pub fn insert(&mut self, t: MessageType) -> (r: bool)
        ensures
            final(self)@ == old(self)@.insert(t),
            r == !old(self)@.contains(t),
    {
        let was = self.contains(&t);
        match t {
            MessageType::System => self.system = true,
            MessageType::User => self.user = true,
            MessageType::Assistant => self.assistant = true,
            MessageType::ToolCall => self.tool_call = true,
            MessageType::ToolResult => self.tool_result = true,
        }
        assert(self@ =~= old(self)@.insert(t));
        !was
    }

    /// Removes `t`; returns `true` when it was present.
    pub fn remove(&mut self, t: &MessageType) -> (r: bool)
        ensures
            final(self)@ == old(self)@.remove(*t),
            r == old(self)@.contains(*t),
    {
        let was = self.contains(t);
        match t {
            MessageType::System => self.system = false,
            MessageType::User => self.user = false,
            MessageType::Assistant => self.assistant = false,
            MessageType::ToolCall => self.tool_call = false,
            MessageType::ToolResult => self.tool_result = false,
        }
        assert(self@ =~= old(self)@.remove(*t));
        was
    }
}

/// Which kinds of message are shown. An empty set of allowed kinds means
/// that the filter is off and every message is shown.
#[derive(Clone, Copy, Debug)]
pub struct MessageFilter {
    pub allowed_types: TypeSet,
}

impl Default for MessageFilter {
    /// The filter that shows everything.
    fn default() -> (r: MessageFilter)
        ensures
            r.allowed_types@ == Set::<MessageType>::empty(),
    {
        MessageFilter::new()
    }
}

impl MessageFilter {
    /// The filter that shows everything.
    pub fn new() -> (r: MessageFilter)
        ensures
            r.allowed_types@ == Set::<MessageType>::empty(),
    {
        MessageFilter { allowed_types: TypeSet::empty() }
    }

    /// Whether the filter is active: some kind has been selected.
    pub open spec fn spec_is_active(&self) -> bool {
        !self.allowed_types@.is_empty()
    }

    /// Whether a message of kind `t` is shown.
    pub open spec fn spec_allows(&self, t: MessageType) -> bool {
        !self.spec_is_active() || self.allowed_types@.contains(t)
    }

    pub fn is_active(&self) -> (r: bool)
        ensures
            r == self.spec_is_active(),
    {
        !self.allowed_types.is_empty()
    }

    pub fn allows(&self, t: &MessageType) -> (r: bool)
        ensures
            r == self.spec_allows(*t),
    {
        !self.is_active() || self.allowed_types.contains(t)
    }

    /// Removes `t` from the allowed kinds when it is there, adds it otherwise.
    pub fn toggle(&mut self, t: MessageType)
        ensures
            final(self).allowed_types@ == toggled(old(self).allowed_types@, t),
    {
        if !self.allowed_types.remove(&t) {
            self.allowed_types.insert(t);
        }
    }

    /// Turns the filter off.
    pub fn clear(&mut self)
        ensures
            final(self).allowed_types@ == Set::<MessageType>::empty(),
    {
        self.allowed_types = TypeSet::empty();
    }

    /// The label shown in the status bar.
    pub fn label(&self) -> (r: &'static str)
        ensures
            r@ == spec_label(self.allowed_types@),
    {
        let s = self.allowed_types;
        proof {
            reveal_strlit("ALL");
            reveal_strlit("SYSTEM");
            reveal_strlit("USER");
            reveal_strlit("ASSISTANT");
            reveal_strlit("TOOLS");
            reveal_strlit("CUSTOM");
        }
        if !self.is_active() {
            return "ALL";
        }
        let n: u8 = (if s.system { 1u8 } else { 0u8 }) + (if s.user { 1u8 } else { 0u8 }) + (if s.assistant {
            1u8
        } else {
            0u8
        }) + (if s.tool_call { 1u8 } else { 0u8 }) + (if s.tool_result { 1u8 } else { 0u8 });
        if n == 1 {
            if s.system {
                assert(s@ =~= set![MessageType::System]);
                return "SYSTEM";
            } else if s.user {
                assert(s@ =~= set![MessageType::User]);
                return "USER";
            } else if s.assistant {
                assert(s@ =~= set![MessageType::Assistant]);
                return "ASSISTANT";
            } else if s.tool_call {
                assert(s@ =~= set![MessageType::ToolCall]);
                return "TOOLS";
            } else {
                assert(s@ =~= set![MessageType::ToolResult]);
                return "TOOLS";
            }
        }
        if n == 2 && s.tool_call && s.tool_result {
            assert(s@ =~= set![MessageType::ToolCall, MessageType::ToolResult]);
            return "TOOLS";
        }
        proof {
            // Not a singleton and not the pair of tool kinds.
            assert(s@.contains(MessageType::System) == s.system);
            assert(s@.contains(MessageType::User) == s.user);
            assert(s@.contains(MessageType::Assistant) == s.assistant);
            assert(s@.contains(MessageType::ToolCall) == s.tool_call);
            assert(s@.contains(MessageType::ToolResult) == s.tool_result);
            assert(set![MessageType::System].contains(MessageType::System));
            assert(set![MessageType::User].contains(MessageType::User));
            assert(set![MessageType::Assistant].contains(MessageType::Assistant));
            assert(set![MessageType::ToolCall].contains(MessageType::ToolCall));
            assert(set![MessageType::ToolResult].contains(MessageType::ToolResult));
            assert(set![MessageType::ToolCall, MessageType::ToolResult].contains(MessageType::ToolCall));
            assert(set![MessageType::ToolCall, MessageType::ToolResult].contains(MessageType::ToolResult));
        }
        "CUSTOM"
    }
}

/// Toggling the same kind twice gives back the filter one started with.
pub proof fn lemma_toggle_twice(s: Set<MessageType>, t: MessageType)
    ensures
        toggled(toggled(s, t), t) == s,
{
    assert(toggled(toggled(s, t), t) =~= s);
}

/// A filter that is off lets every kind through; an active one lets through
/// exactly the kinds it holds.
pub proof fn lemma_allows_exactly(f: MessageFilter, t: MessageType)
    ensures
        !f.spec_is_active() ==> f.spec_allows(t),
        f.spec_is_active() ==> (f.spec_allows(t) <==> f.allowed_types@.contains(t)),
{
}

/// Clearing a filter turns it off.
pub proof fn lemma_clear_turns_off(f: MessageFilter)
    requires
        f.allowed_types@ == Set::<MessageType>::empty(),
    ensures
        !f.spec_is_active(),
        forall|t: MessageType| f.spec_allows(t),
{
}

/// A filter that lets exactly one kind through is labelled with that kind's
/// name: `SYSTEM`, `USER` and `ASSISTANT`, and `TOOLS` for tool calls or tool
/// results alone; a filter that is off is labelled `ALL`.
pub proof fn lemma_single_kind_labels(k: MessageType)
    ensures
        spec_label(set![k]) == (match k {
            MessageType::System => "SYSTEM"@,
            MessageType::User => "USER"@,
            MessageType::Assistant => "ASSISTANT"@,
            MessageType::ToolCall => "TOOLS"@,
            MessageType::ToolResult => "TOOLS"@,
        }),
        spec_label(Set::empty()) == "ALL"@,
{
    assert(set![k].contains(k));
    assert forall|a: MessageType, b: MessageType| a != b implies set![a] != set![b] by {
        assert(set![a].contains(a) && !set![b].contains(a));
    }
    assert(set![k] != set![MessageType::ToolCall, MessageType::ToolResult]) by {
        if k == MessageType::ToolCall {
            assert(!set![k].contains(MessageType::ToolResult));
        } else {
            assert(!set![k].contains(MessageType::ToolCall));
        }
    }
}

} // verus!
