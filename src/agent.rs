use vstd::prelude::*;

use crate::buffer::ConversationBuffer;
use crate::durable::{MessageRecord, WritePlan, messages_view, records_view, record_of};
use crate::language_models::Gpt;
use crate::memory::{memory_wf, LoadedMemory, Memory, VolatileCache};
use crate::message::{Message, Role};

verus! {

/// Something that can be shown to the model as a message.
pub trait BufferDisplay {
    fn buffer_display(&self) -> String;
}

/// How an agent starts: which memory to use in place of the default one, and
/// the conversation to begin with when the memory holds none.
#[derive(Debug)]
pub struct AgentSettings {
    pub memory_override: Option<Memory>,
    pub init_prompt: ConversationBuffer,
}

impl Default for AgentSettings {
    fn default() -> (r: AgentSettings)
        ensures
            r.memory_override is None,
            r.init_prompt@.len() == 0,
    {
        AgentSettings { memory_override: None, init_prompt: ConversationBuffer::new() }
    }
}

/// An agent's conversation and the memory that keeps it.
#[derive(Debug)]
pub struct Context {
    pub buffer: ConversationBuffer,
    pub memory: Memory,
}

/// The memory an agent made from `settings` uses.
pub open spec fn chosen_memory(settings: AgentSettings) -> Memory {
    match settings.memory_override {
        Some(m) => m,
        None => Memory::Remember(LoadedMemory::Cache),
    }
}

/// The conversation an agent starts with: the initial prompt when its memory
/// forgets or holds nothing, else what the memory held.
pub open spec fn starting_buffer(memory: Memory, init_prompt: Seq<Message>, loaded: Seq<Message>) -> Seq<Message> {
    match memory {
        Memory::Forget => init_prompt,
        _ => if loaded.len() == 0 {
            init_prompt
        } else {
            loaded
        },
    }
}

/// A conversational agent: its context and the model it completes with.
#[derive(Debug)]
pub struct Agent {
    pub context: Context,
    pub gpt: Gpt,
}

impl Default for Agent {
    /// An agent with the default settings and the cache as its memory, not yet holding any message.
    fn default() -> (r: Agent)
        ensures
            r.context.memory == Memory::Remember(LoadedMemory::Cache),
            r.context.buffer@.len() == 0,
    {
        Agent::build(AgentSettings::default(), Vec::new())
    }
}

impl Agent {
    /// An agent made from `settings`; `loaded` is what its memory held.
    pub fn build(settings: AgentSettings, loaded: Vec<Message>) -> (r: Agent)
        ensures
            r.context.memory == chosen_memory(settings),
            r.context.buffer@ == starting_buffer(chosen_memory(settings), settings.init_prompt@, loaded@),
    {
        let gpt = Gpt::default();
        let memory = match settings.memory_override {
            Some(m) => m,
            None => Memory::Remember(LoadedMemory::Cache),
        };
        let buffer = match memory {
            Memory::Forget => settings.init_prompt,
            _ => {
                if loaded.len() == 0 {
                    settings.init_prompt
                } else {
                    ConversationBuffer::from_messages(loaded)
                }
            },
        };
        Agent { context: Context { buffer, memory }, gpt }
    }

    /// How the agent's memory is shown: "Forget", "ShortTerm" for the cache,
    /// or the name of the durable thread.
    pub fn info_display_string(&self) -> (r: String)
        ensures
            match self.context.memory {
                Memory::Forget => r@ == "Forget"@,
                Memory::Remember(LoadedMemory::Cache) => r@ == "ShortTerm"@,
                Memory::Remember(LoadedMemory::LongTerm(name)) => r@ == name@,
            },
    {
        match &self.context.memory {
            Memory::Forget => "Forget".to_owned(),
            Memory::Remember(LoadedMemory::Cache) => "ShortTerm".to_owned(),
            Memory::Remember(LoadedMemory::LongTerm(name)) => name.clone(),
        }
    }

    /// Adds what `o` displays as a user message.
    pub fn format_to_buffer<T: BufferDisplay>(&mut self, o: T)
        ensures
            final(self).context.memory == old(self).context.memory,
            final(self).gpt == old(self).gpt,
            final(self).context.buffer@.len() == old(self).context.buffer@.len() + 1,
            final(self).context.buffer@.drop_last() == old(self).context.buffer@,
            final(self).context.buffer@.last().role == Role::User,
    {
        let mem = o.buffer_display();
        self.context.buffer.append(Role::User, mem.as_str());
    }

    /// Saves the conversation through the current memory, then switches to
    /// `memory`. The old memory keeps what it held; the conversation goes on.
    /// For a durable memory the returned run of writes saves the conversation.
    pub fn switch_mem(&mut self, memory: Memory, cache: &mut VolatileCache) -> (r: Option<
        WritePlan<MessageRecord>,
    >)
        requires
            memory_wf(old(self).context.memory),
        ensures
            final(self).context.memory == memory,
            final(self).context.buffer@ == old(self).context.buffer@,
            final(self).gpt == old(self).gpt,
            match old(self).context.memory {
                Memory::Forget => r is None && final(cache)@ == old(cache)@,
                Memory::Remember(LoadedMemory::Cache) => r is None && final(cache)@ == old(cache)@
                    + old(self).context.buffer@,
                Memory::Remember(LoadedMemory::LongTerm(_)) => final(cache)@ == old(cache)@ && r is Some
                    && r->Some_0.wf() && r->Some_0.written() == 0 && r->Some_0.failure_spec() is None
                    && records_view(r->Some_0.items_spec()) == messages_view(
                    old(self).context.buffer@,
                ).map_values(|m: (Role, Seq<char>)| record_of(m)),
            },
    {
        let plan = self.context.memory.save(cache, self.context.buffer.messages());
        self.context.memory = memory;
        plan
    }

    /// Adds `input` as a user message and returns a copy of the conversation
    /// to hand to the model.
    pub fn prompt_request(&mut self, input: &str) -> (r: ConversationBuffer)
        ensures
            final(self).context.memory == old(self).context.memory,
            final(self).gpt == old(self).gpt,
            final(self).context.buffer@.len() == old(self).context.buffer@.len() + 1,
            final(self).context.buffer@.drop_last() == old(self).context.buffer@,
            final(self).context.buffer@.last().role == Role::User,
            final(self).context.buffer@.last().content@ == input@,
            r@ == final(self).context.buffer@,
    {
        self.context.buffer.append(Role::User, input);
        self.context.buffer.clone()
    }

    /// Adds the model's reply as an assistant message.
    pub fn record_reply(&mut self, reply: &str)
        ensures
            final(self).context.memory == old(self).context.memory,
            final(self).gpt == old(self).gpt,
            final(self).context.buffer@.len() == old(self).context.buffer@.len() + 1,
            final(self).context.buffer@.drop_last() == old(self).context.buffer@,
            final(self).context.buffer@.last().role == Role::Assistant,
            final(self).context.buffer@.last().content@ == reply@,
    {
        self.context.buffer.append(Role::Assistant, reply);
    }
}

} // verus!
