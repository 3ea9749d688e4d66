use espionox::agent::Context;
use espionox::{
    Agent, AgentSettings, BufferDisplay, ConversationBuffer, Gpt, LanguageModel, LoadedMemory,
    Memory, Message, Role, VolatileCache,
};

fn init() -> ConversationBuffer {
    let mut b = ConversationBuffer::new();
    b.append(Role::System, "You are helpful");
    b
}

#[test]
fn build_forget_uses_init_prompt() {
    let s = AgentSettings { memory_override: Some(Memory::Forget), init_prompt: init() };
    let a = Agent::build(s, vec![Message::new(Role::User, "old")]);
    assert_eq!(a.context.buffer.len(), 1);
    assert_eq!(a.context.buffer.messages()[0].role, Role::System);
}

#[test]
fn build_with_loaded_messages_uses_them() {
    let s = AgentSettings { memory_override: None, init_prompt: init() };
    let a = Agent::build(s, vec![Message::new(Role::User, "old"), Message::new(Role::Assistant, "reply")]);
    assert!(matches!(a.context.memory, Memory::Remember(LoadedMemory::Cache)));
    assert_eq!(a.context.buffer.len(), 2);
    assert_eq!(a.context.buffer.messages()[1].content, "reply");
}

#[test]
fn build_with_nothing_loaded_uses_init_prompt() {
    let s = AgentSettings {
        memory_override: Some(Memory::Remember(LoadedMemory::LongTerm("t".to_string()))),
        init_prompt: init(),
    };
    let a = Agent::build(s, vec![]);
    assert_eq!(a.context.buffer.messages()[0].content, "You are helpful");
}

#[test]
fn default_agent_is_empty_with_cache() {
    let a = Agent::default();
    assert_eq!(a.context.buffer.len(), 0);
    assert_eq!(a.info_display_string(), "ShortTerm");
    assert_eq!(a.gpt.model, "gpt-3.5-turbo");
}

#[test]
fn info_display_names_memory() {
    let mut a = Agent::default();
    a.context.memory = Memory::Forget;
    assert_eq!(a.info_display_string(), "Forget");
    a.context.memory = Memory::Remember(LoadedMemory::LongTerm("project".to_string()));
    assert_eq!(a.info_display_string(), "project");
}

#[test]
fn prompt_request_appends_and_snapshots() {
    let mut a = Agent::default();
    let snap = a.prompt_request("Hello");
    a.record_reply("Hello! how can i help you?");
    assert_eq!(snap.len(), 1);
    assert_eq!(a.context.buffer.len(), 2);
    assert_eq!(a.context.buffer.messages()[0].role, Role::User);
    assert_eq!(a.context.buffer.messages()[1].role, Role::Assistant);
    assert_eq!(a.context.buffer.messages()[1].content, "Hello! how can i help you?");
}

struct Note(&'static str);

impl BufferDisplay for Note {
    fn buffer_display(&self) -> String {
        format!("note: {}", self.0)
    }
}

#[test]
fn format_to_buffer_adds_user_message() {
    let mut a = Agent::default();
    a.format_to_buffer(Note("x"));
    assert_eq!(a.context.buffer.messages()[0].role, Role::User);
    assert_eq!(a.context.buffer.messages()[0].content, "note: x");
}

#[test]
fn switch_mem_saves_into_cache_then_rebinds() {
    let mut cache = VolatileCache::new();
    let mut a = Agent {
        context: Context { buffer: init(), memory: Memory::Remember(LoadedMemory::Cache) },
        gpt: Gpt::default(),
    };
    let plan = a.switch_mem(Memory::Forget, &mut cache);
    assert!(plan.is_none());
    assert_eq!(cache.len(), 1);
    assert!(matches!(a.context.memory, Memory::Forget));
    assert_eq!(a.context.buffer.len(), 1);
}

#[test]
fn switch_mem_from_long_term_plans_writes() {
    let mut cache = VolatileCache::new();
    let mut a = Agent::default();
    a.context.memory = Memory::Remember(LoadedMemory::LongTerm("t".to_string()));
    a.prompt_request("hi");
    let plan = a.switch_mem(Memory::Remember(LoadedMemory::Cache), &mut cache).unwrap();
    assert_eq!(cache.len(), 0);
    assert_eq!(plan.item(0).content, "hi");
}

#[test]
fn language_model_accessors() {
    let mut m = LanguageModel::default_gpt();
    assert_eq!(m.inner_gpt().unwrap().model, "gpt-3.5-turbo");
    m.inner_mut_gpt().unwrap().model = "gpt-4".to_string();
    assert_eq!(m.inner_gpt().unwrap().model, "gpt-4");
    let n = LanguageModel::from(Gpt { model: "m".to_string() });
    assert_eq!(n.inner_gpt().unwrap().model, "m");
}
