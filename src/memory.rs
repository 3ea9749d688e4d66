use vstd::prelude::*;

use crate::buffer::copy_messages;
use crate::durable::{
    file_writes, records_for, DurableLoad, FileChunkRecord, FileRecord, FileWrite, LoadAction,
    MessageRecord, WritePlan, messages_view, records_view, record_of,
};
use crate::message::{Message, Role};

verus! {

/// The transient memory of one execution context: messages kept in the order
/// they were saved, never written anywhere durable. The owner of the context
/// holds it and hands it to each operation, so one context's cache is never
/// seen from another and writes within a context are serialised.
#[derive(Debug)]
pub struct VolatileCache {
    messages: Vec<Message>,
}

impl View for VolatileCache {
    type V = Seq<Message>;

    closed spec fn view(&self) -> Seq<Message> {
        self.messages@
    }
}

impl VolatileCache {
    /// An empty cache, as a context starts with.
    pub fn new() -> (r: VolatileCache)
        ensures
            r@ == Seq::<Message>::empty(),
    {
        VolatileCache { messages: Vec::new() }
    }

    /// Every message the cache holds, in the order they were saved.
    pub fn load(&self) -> (r: Vec<Message>)
        ensures
            r@ == self@,
    {
        copy_messages(&self.messages)
    }

    /// Appends `messages`, in their order, after those already held.
    pub fn save(&mut self, messages: &Vec<Message>)
        ensures
            final(self)@ == old(self)@ + messages@,
    {
        let mut more = copy_messages(messages);
        self.messages.append(&mut more);
    }

    /// The number of messages held.
    pub fn len(&self) -> (r: usize)
        ensures
            r == self@.len(),
    {
        self.messages.len()
    }
}

/// A memory that keeps the conversation: in a durable thread of this name,
/// or in the context's volatile cache.
#[derive(Clone, Debug)]
pub enum LoadedMemory {
    LongTerm(String),
    Cache,
}

/// Whether an agent keeps its conversation, and where.
#[derive(Clone, Debug)]
pub enum Memory {
    Remember(LoadedMemory),
    Forget,
}

/// A durable thread is named by a non-empty string.
pub open spec fn loaded_wf(m: LoadedMemory) -> bool {
    match m {
        LoadedMemory::LongTerm(name) => name@.len() > 0,
        LoadedMemory::Cache => true,
    }
}

pub open spec fn memory_wf(m: Memory) -> bool {
    match m {
        Memory::Remember(l) => loaded_wf(l),
        Memory::Forget => true,
    }
}

/// Whether `m` names its durable thread, if any, by a non-empty string.
pub fn memory_ok(m: &Memory) -> (r: bool)
    ensures
        r == memory_wf(*m),
{
    match m {
        Memory::Remember(LoadedMemory::LongTerm(name)) => !name.as_str().is_empty(),
        _ => true,
    }
}

/// The outcome of asking a memory for its messages: either they are at hand,
/// or a durable load has started and waits for the persistence layer.
#[derive(Debug)]
pub enum MemoryLoad {
    Ready(Vec<Message>),
    Durable(DurableLoad, LoadAction),
}

impl LoadedMemory {
    /// A durable memory named `name`; `None` when the name is empty.
    pub fn long_term(name: &str) -> (r: Option<LoadedMemory>)
        ensures
            name@.len() == 0 <==> r is None,
            r is Some ==> r->Some_0 is LongTerm && r->Some_0->LongTerm_0@ == name@,
    {
        if name.is_empty() {
            None
        } else {
            Some(LoadedMemory::LongTerm(name.to_owned()))
        }
    }

    /// Asks this memory for its messages. The cache answers at once with what
    /// it holds; a durable thread starts a load, whose first request is the
    /// lookup of the thread.
    pub fn get_messages(&self, cache: &VolatileCache) -> (r: MemoryLoad)
        requires
            loaded_wf(*self),
        ensures
            match *self {
                LoadedMemory::Cache => r is Ready && r->Ready_0@ == cache@,
                LoadedMemory::LongTerm(name) => r is Durable && r->Durable_0.thread_name == name
                    && r->Durable_0.phase == crate::durable::LoadPhase::LookUp
                    && r->Durable_1 is GetThread,
            },
    {
        match self {
            LoadedMemory::Cache => MemoryLoad::Ready(cache.load()),
            LoadedMemory::LongTerm(name) => {
                let (l, a) = DurableLoad::start(name.clone());
                MemoryLoad::Durable(l, a)
            },
        }
    }

    /// Saves `messages` after those already kept. The cache appends them at
    /// once; a durable thread gets a run of writes, one record per message in
    /// their order, which the caller performs.
    pub fn store_messages(&self, cache: &mut VolatileCache, messages: &Vec<Message>) -> (r: Option<
        WritePlan<MessageRecord>,
    >)
        requires
            loaded_wf(*self),
        ensures
            match *self {
                LoadedMemory::Cache => r is None && final(cache)@ == old(cache)@ + messages@,
                LoadedMemory::LongTerm(_) => final(cache)@ == old(cache)@ && r is Some && r->Some_0.wf()
                    && r->Some_0.written() == 0 && r->Some_0.failure_spec() is None
                    && records_view(r->Some_0.items_spec()) == messages_view(messages@).map_values(
                    |m: (Role, Seq<char>)| record_of(m),
                ),
            },
    {
        match self {
            LoadedMemory::Cache => {
                cache.save(messages);
                None
            },
            LoadedMemory::LongTerm(_) => Some(WritePlan::new(records_for(messages))),
        }
    }

    /// Stores a file and its chunks. The cache keeps no files; a durable
    /// thread gets a run of writes: the file record first, then each chunk.
    pub fn store_file_tup(&self, file_tup: (FileRecord, Vec<FileChunkRecord>)) -> (r: Option<
        WritePlan<FileWrite>,
    >)
        ensures
            match *self {
                LoadedMemory::Cache => r is None,
                LoadedMemory::LongTerm(_) => r is Some && r->Some_0.wf() && r->Some_0.written() == 0
                    && r->Some_0.failure_spec() is None
                    && r->Some_0.items_spec().len() == file_tup.1@.len() + 1
                    && r->Some_0.items_spec()[0] == FileWrite::File(file_tup.0)
                    && forall|i: int| 0 <= i < file_tup.1@.len() ==> #[trigger] r->Some_0.items_spec()[i + 1]
                        == FileWrite::Chunk(file_tup.1@[i]),
            },
    {
        match self {
            LoadedMemory::Cache => None,
            LoadedMemory::LongTerm(_) => {
                let (file, chunks) = file_tup;
                Some(WritePlan::new(file_writes(file, chunks)))
            },
        }
    }
}

impl Default for Memory {
    /// Remember, in the context's volatile cache.
    fn default() -> (r: Memory)
        ensures
            r == Memory::Remember(LoadedMemory::Cache),
    {
        Memory::Remember(LoadedMemory::Cache)
    }
}

impl Memory {
    /// Asks for the kept messages; a memory that forgets has none.
    pub fn load(&self, cache: &VolatileCache) -> (r: MemoryLoad)
        requires
            memory_wf(*self),
        ensures
            match *self {
                Memory::Forget => r is Ready && r->Ready_0@.len() == 0,
                Memory::Remember(LoadedMemory::Cache) => r is Ready && r->Ready_0@ == cache@,
                Memory::Remember(LoadedMemory::LongTerm(name)) => r is Durable
                    && r->Durable_0.thread_name == name
                    && r->Durable_0.phase == crate::durable::LoadPhase::LookUp
                    && r->Durable_1 is GetThread,
            },
    {
        match self {
            Memory::Remember(memory) => memory.get_messages(cache),
            Memory::Forget => MemoryLoad::Ready(Vec::new()),
        }
    }

    /// Saves `messages`; a memory that forgets keeps nothing.
    pub fn save(&self, cache: &mut VolatileCache, messages: &Vec<Message>) -> (r: Option<
        WritePlan<MessageRecord>,
    >)
        requires
            memory_wf(*self),
        ensures
            match *self {
                Memory::Forget => r is None && final(cache)@ == old(cache)@,
                Memory::Remember(LoadedMemory::Cache) => r is None && final(cache)@ == old(cache)@
                    + messages@,
                Memory::Remember(LoadedMemory::LongTerm(_)) => final(cache)@ == old(cache)@ && r is Some
                    && r->Some_0.wf() && r->Some_0.written() == 0 && r->Some_0.failure_spec() is None
                    && records_view(r->Some_0.items_spec()) == messages_view(messages@).map_values(
                    |m: (Role, Seq<char>)| record_of(m),
                ),
            },
    {
        match self {
            Memory::Remember(memory) => memory.store_messages(cache, messages),
            Memory::Forget => None,
        }
    }
}

/// A conversation saved into a fresh cache is loaded back exactly: the
/// messages of every append, in the order of the appends.
pub proof fn lemma_cache_round_trip(conversation: Seq<Message>)
    ensures
        Seq::<Message>::empty() + conversation == conversation,
{
    assert(Seq::<Message>::empty() + conversation =~= conversation);
}

/// Saves into one cache keep the order in which they were made: what each
/// save appends comes after everything earlier saves appended, and nothing
/// is interleaved.
pub proof fn lemma_cache_saves_in_order(start: Seq<Message>, first: Seq<Message>, second: Seq<Message>)
    ensures
        (start + first) + second == start + (first + second),
        (start + first + second).subrange(0, start.len() as int) == start,
        (start + first + second).subrange(start.len() as int, (start.len() + first.len()) as int)
            == first,
        (start + first + second).subrange(
            (start.len() + first.len()) as int,
            (start.len() + first.len() + second.len()) as int,
        ) == second,
{
    assert((start + first) + second =~= start + (first + second));
    assert((start + first + second).subrange(0, start.len() as int) =~= start);
    assert((start + first + second).subrange(start.len() as int, (start.len() + first.len()) as int)
        =~= first);
    assert((start + first + second).subrange(
        (start.len() + first.len()) as int,
        (start.len() + first.len() + second.len()) as int,
    ) =~= second);
}

} // verus!
