use espionox::durable::{FileChunkRecord, FileRecord, FileWrite};
use espionox::memory::MemoryLoad;
use espionox::{ConversationBuffer, LoadedMemory, Memory, Message, Role, VolatileCache};

fn texts(ms: &[Message]) -> Vec<(Role, String)> {
    ms.iter().map(|m| (m.role, m.content.clone())).collect()
}

#[test]
fn cache_round_trip_returns_appended_messages_in_order() {
    let mut buffer = ConversationBuffer::new();
    buffer.append(Role::System, "be brief");
    buffer.append(Role::User, "Hello");
    buffer.append(Role::Assistant, "Hello! how can i help you?");
    let mut cache = VolatileCache::new();
    let memory = Memory::Remember(LoadedMemory::Cache);
    assert!(memory.save(&mut cache, buffer.messages()).is_none());
    match memory.load(&cache) {
        MemoryLoad::Ready(ms) => assert_eq!(texts(&ms), texts(buffer.messages())),
        _ => panic!("the cache answers at once"),
    }
}

#[test]
fn cache_saves_keep_call_order() {
    let mut cache = VolatileCache::new();
    cache.save(&vec![Message::new(Role::User, "a")]);
    cache.save(&vec![Message::new(Role::Assistant, "b"), Message::new(Role::User, "c")]);
    cache.save(&vec![]);
    assert_eq!(cache.len(), 3);
    let got: Vec<String> = cache.load().into_iter().map(|m| m.content).collect();
    assert_eq!(got, vec!["a", "b", "c"]);
}

#[test]
fn forget_keeps_nothing() {
    let mut cache = VolatileCache::new();
    let memory = Memory::Forget;
    assert!(memory.save(&mut cache, &vec![Message::new(Role::User, "x")]).is_none());
    assert_eq!(cache.len(), 0);
    match memory.load(&cache) {
        MemoryLoad::Ready(ms) => assert!(ms.is_empty()),
        _ => panic!("forget answers at once"),
    }
}

#[test]
fn durable_save_plans_one_record_per_message() {
    let mut cache = VolatileCache::new();
    let memory = Memory::Remember(LoadedMemory::LongTerm("main".to_string()));
    let msgs = vec![Message::new(Role::User, "hi"), Message::new(Role::Assistant, "hey")];
    let plan = memory.save(&mut cache, &msgs).expect("durable memory plans writes");
    assert_eq!(cache.len(), 0);
    assert_eq!(plan.item(0).role, "user");
    assert_eq!(plan.item(0).content, "hi");
    assert_eq!(plan.item(1).role, "assistant");
    assert_eq!(plan.item(1).content, "hey");
}

#[test]
fn long_term_needs_a_name() {
    assert!(LoadedMemory::long_term("").is_none());
    match LoadedMemory::long_term("notes") {
        Some(LoadedMemory::LongTerm(n)) => assert_eq!(n, "notes"),
        _ => panic!("a named thread is accepted"),
    }
}

#[test]
fn cache_keeps_no_files() {
    let plan = LoadedMemory::Cache.store_file_tup((
        FileRecord { name: "f".to_string(), content: "c".to_string() },
        vec![],
    ));
    assert!(plan.is_none());
}

#[test]
fn durable_file_storage_writes_file_then_chunks() {
    let chunks = vec![
        FileChunkRecord { file_name: "f".to_string(), index: 0, content: "one".to_string() },
        FileChunkRecord { file_name: "f".to_string(), index: 1, content: "two".to_string() },
    ];
    let plan = LoadedMemory::LongTerm("t".to_string())
        .store_file_tup((FileRecord { name: "f".to_string(), content: "onetwo".to_string() }, chunks))
        .unwrap();
    assert!(matches!(plan.item(0), FileWrite::File(f) if f.name == "f"));
    assert!(matches!(plan.item(1), FileWrite::Chunk(c) if c.index == 0 && c.content == "one"));
    assert!(matches!(plan.item(2), FileWrite::Chunk(c) if c.index == 1 && c.content == "two"));
}
