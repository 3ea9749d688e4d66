use vstd::prelude::*;

use crate::message::{role_from_name_spec, role_name_spec, Message, Role};

verus! {

/// A message as the persistence layer stores it: the role's name and the text.
#[derive(Debug)]
pub struct MessageRecord {
    pub role: String,
    pub content: String,
}

/// What a message looks like once role and text are read out of it.
pub open spec fn message_view(m: Message) -> (Role, Seq<char>) {
    (m.role, m.content@)
}

pub open spec fn messages_view(ms: Seq<Message>) -> Seq<(Role, Seq<char>)> {
    ms.map_values(|m: Message| message_view(m))
}

/// The stored form of a message: role name and text.
pub open spec fn record_of(m: (Role, Seq<char>)) -> (Seq<char>, Seq<char>) {
    (role_name_spec(m.0), m.1)
}

pub open spec fn record_view(r: MessageRecord) -> (Seq<char>, Seq<char>) {
    (r.role@, r.content@)
}

pub open spec fn records_view(rs: Seq<MessageRecord>) -> Seq<(Seq<char>, Seq<char>)> {
    rs.map_values(|r: MessageRecord| record_view(r))
}

/// Every stored record names a known role.
pub open spec fn records_parse(rs: Seq<(Seq<char>, Seq<char>)>) -> bool {
    forall|i: int| 0 <= i < rs.len() ==> (#[trigger] role_from_name_spec(rs[i].0)) is Some
}

/// The messages that well-formed stored records stand for, in their order.
pub open spec fn parsed(rs: Seq<(Seq<char>, Seq<char>)>) -> Seq<(Role, Seq<char>)> {
    rs.map_values(|r: (Seq<char>, Seq<char>)| (role_from_name_spec(r.0)->Some_0, r.1))
}

/// Why a durable-store operation failed.
#[derive(Debug)]
pub enum BackendError {
    /// Looking the thread up failed for another reason than its absence.
    ThreadLookup(String),
    /// Creating a missing thread failed.
    ThreadCreate(String),
    /// Fetching the thread's messages failed.
    Fetch(String),
    /// A stored record names no known role.
    UnknownRole(String),
    /// A write was refused; the writes before it stay committed.
    Write(String),
    /// An answer arrived that the current step does not expect.
    OutOfOrder,
}

impl MessageRecord {
    /// The stored form of `m`.
    pub fn from_message(m: &Message) -> (r: MessageRecord)
        ensures
            record_view(r) == record_of(message_view(*m)),
    {
        MessageRecord { role: m.role.name().to_owned(), content: m.content.clone() }
    }

    /// The message this record stands for; an error when its role is unknown.
    pub fn to_message(&self) -> (r: Result<Message, BackendError>)
        ensures
            match role_from_name_spec(self.role@) {
                Some(role) => r is Ok && message_view(r->Ok_0) == (role, self.content@),
                None => r is Err && r->Err_0 == BackendError::UnknownRole(self.role),
            },
    {
        match Role::from_name(self.role.as_str()) {
            Some(role) => Ok(Message { role, content: self.content.clone() }),
            None => Err(BackendError::UnknownRole(self.role.clone())),
        }
    }
}

/// Reads stored records back as messages, stopping at the first unknown role.
pub fn messages_from_records(records: &Vec<MessageRecord>) -> (r: Result<Vec<Message>, BackendError>)
    ensures
        records_parse(records_view(records@)) <==> r is Ok,
        r is Ok ==> messages_view(r->Ok_0@) == parsed(records_view(records@)),
        r is Err ==> r->Err_0 is UnknownRole,
{
    let mut out: Vec<Message> = Vec::new();
    let mut i: usize = 0;
    while i < records.len()
        invariant
            i <= records@.len(),
            records_parse(records_view(records@).subrange(0, i as int)),
            messages_view(out@) == parsed(records_view(records@).subrange(0, i as int)),
        decreases records@.len() - i,
    {
        match records[i].to_message() {
            Ok(m) => {
                let ghost prev = out@;
                let ghost rv = records_view(records@);
                out.push(m);
                proof {
                    assert(rv.subrange(0, i + 1) =~= rv.subrange(0, i as int).push(rv[i as int]));
                    assert(messages_view(out@) =~= messages_view(prev).push(message_view(m)));
                    assert(parsed(rv.subrange(0, i + 1)) =~= parsed(rv.subrange(0, i as int)).push(
                        (role_from_name_spec(rv[i as int].0)->Some_0, rv[i as int].1),
                    ));
                }
                i = i + 1;
            },
            Err(e) => {
                proof {
                    let rv = records_view(records@);
                    assert(role_from_name_spec(rv[i as int].0) is None);
                }
                return Err(e);
            },
        }
    }
    assert(records_view(records@).subrange(0, i as int) =~= records_view(records@));
    Ok(out)
}

/// Where the loading of a durable thread stands.
#[derive(Clone, Copy, Debug, PartialEq, Eq, Structural)]
pub enum LoadPhase {
    /// Waiting for the answer to the thread lookup.
    LookUp,
    /// The thread was missing; waiting for its creation.
    Creating,
    /// The thread exists; waiting for its messages.
    Fetching,
    /// Done, successfully or not.
    Finished,
}

/// An answer of the persistence layer to the last request.
#[derive(Debug)]
pub enum StoreEvent {
    ThreadFound,
    ThreadMissing,
    LookupFailed(String),
    ThreadCreated,
    CreateFailed(String),
    Records(Vec<MessageRecord>),
    FetchFailed(String),
}

/// What the persistence layer is to be asked next, or how the load ended.
#[derive(Debug)]
pub enum LoadAction {
    GetThread,
    CreateThread,
    GetMessages,
    Done(Vec<Message>),
    Fail(BackendError),
}

/// The phase that follows `phase` on the answer `ev`.
pub open spec fn next_phase(phase: LoadPhase, ev: StoreEvent) -> LoadPhase {
    match (phase, ev) {
        (LoadPhase::LookUp, StoreEvent::ThreadFound) => LoadPhase::Fetching,
        (LoadPhase::LookUp, StoreEvent::ThreadMissing) => LoadPhase::Creating,
        (LoadPhase::Creating, StoreEvent::ThreadCreated) => LoadPhase::Fetching,
        _ => LoadPhase::Finished,
    }
}

/// The action that answers `ev` in `phase`.
pub open spec fn load_action_spec(phase: LoadPhase, ev: StoreEvent, a: LoadAction) -> bool {
    match (phase, ev) {
        (LoadPhase::LookUp, StoreEvent::ThreadFound) => a is GetMessages,
        (LoadPhase::LookUp, StoreEvent::ThreadMissing) => a is CreateThread,
        (LoadPhase::LookUp, StoreEvent::LookupFailed(e)) => a == LoadAction::Fail(BackendError::ThreadLookup(e)),
        (LoadPhase::Creating, StoreEvent::ThreadCreated) => a is GetMessages,
        (LoadPhase::Creating, StoreEvent::CreateFailed(e)) => a == LoadAction::Fail(BackendError::ThreadCreate(e)),
        (LoadPhase::Fetching, StoreEvent::Records(rs)) => {
            let rv = records_view(rs@);
            if records_parse(rv) {
                a is Done && messages_view(a->Done_0@) == parsed(rv)
            } else {
                a is Fail && a->Fail_0 is UnknownRole
            }
        },
        (LoadPhase::Fetching, StoreEvent::FetchFailed(e)) => a == LoadAction::Fail(BackendError::Fetch(e)),
        _ => a == LoadAction::Fail(BackendError::OutOfOrder),
    }
}

/// The loading of one named durable thread: make sure the thread exists,
/// creating it when the lookup says it is missing, then read its messages.
/// The caller performs each request and hands the answer to `step`.
#[derive(Debug)]
pub struct DurableLoad {
    pub thread_name: String,
    pub phase: LoadPhase,
}

impl DurableLoad {
    /// Starts loading `thread_name`; the first request is the thread lookup.
    pub fn start(thread_name: String) -> (r: (DurableLoad, LoadAction))
        ensures
            r.0.thread_name == thread_name,
            r.0.phase == LoadPhase::LookUp,
            r.1 is GetThread,
    {
        (DurableLoad { thread_name, phase: LoadPhase::LookUp }, LoadAction::GetThread)
    }

    /// Takes the answer to the last request and says what comes next.
    /// Only a missing thread is mended, by creating it; every other failure ends the load.
    pub fn step(&mut self, ev: StoreEvent) -> (r: LoadAction)
        ensures
            final(self).thread_name == old(self).thread_name,
            final(self).phase == next_phase(old(self).phase, ev),
            load_action_spec(old(self).phase, ev, r),
    {
        let phase = self.phase;
        match (phase, ev) {
            (LoadPhase::LookUp, StoreEvent::ThreadFound) => {
                self.phase = LoadPhase::Fetching;
                LoadAction::GetMessages
            },
            (LoadPhase::LookUp, StoreEvent::ThreadMissing) => {
                self.phase = LoadPhase::Creating;
                LoadAction::CreateThread
            },
            (LoadPhase::LookUp, StoreEvent::LookupFailed(e)) => {
                self.phase = LoadPhase::Finished;
                LoadAction::Fail(BackendError::ThreadLookup(e))
            },
            (LoadPhase::Creating, StoreEvent::ThreadCreated) => {
                self.phase = LoadPhase::Fetching;
                LoadAction::GetMessages
            },
            (LoadPhase::Creating, StoreEvent::CreateFailed(e)) => {
                self.phase = LoadPhase::Finished;
                LoadAction::Fail(BackendError::ThreadCreate(e))
            },
            (LoadPhase::Fetching, StoreEvent::Records(rs)) => {
                self.phase = LoadPhase::Finished;
                match messages_from_records(&rs) {
                    Ok(ms) => LoadAction::Done(ms),
                    Err(e) => LoadAction::Fail(e),
                }
            },
            (LoadPhase::Fetching, StoreEvent::FetchFailed(e)) => {
                self.phase = LoadPhase::Finished;
                LoadAction::Fail(BackendError::Fetch(e))
            },
            _ => {
                self.phase = LoadPhase::Finished;
                LoadAction::Fail(BackendError::OutOfOrder)
            },
        }
    }
}

/// A run of writes to the persistence layer, made one at a time in order.
/// The first refused write ends the run: the writes before it stay
/// committed, and none after it is made.
#[derive(Debug)]
pub struct WritePlan<T> {
    items: Vec<T>,
    next: usize,
    failure: Option<String>,
}

/// What the caller is to do next in a run of writes.
#[derive(Debug, PartialEq, Eq, Structural)]
pub enum WriteAction {
    /// Write the item at this position.
    Write(usize),
    /// Every item is written.
    Done,
    /// The run stopped at a refused write.
    Failed,
}

impl<T> WritePlan<T> {
    pub closed spec fn items_spec(&self) -> Seq<T> {
        self.items@
    }

    /// How many items are written so far.
    pub closed spec fn written(&self) -> nat {
        self.next as nat
    }

    pub closed spec fn failure_spec(&self) -> Option<String> {
        self.failure
    }

    pub closed spec fn wf(&self) -> bool {
        self.next <= self.items@.len()
    }

    /// A run that will write `items` in their order.
    pub fn new(items: Vec<T>) -> (r: WritePlan<T>)
        ensures
            r.wf(),
            r.items_spec() == items@,
            r.written() == 0,
            r.failure_spec() is None,
    {
        WritePlan { items, next: 0, failure: None }
    }

    /// The item at position `i`.
    pub fn item(&self, i: usize) -> (r: &T)
        requires
            i < self.items_spec().len(),
        ensures
            *r == self.items_spec()[i as int],
    {
        &self.items[i]
    }

    /// The items still to be written come next, one by one, in order.
    pub fn next_action(&self) -> (r: WriteAction)
        requires
            self.wf(),
        ensures
            self.failure_spec() is Some ==> r == WriteAction::Failed,
            self.failure_spec() is None && self.written() < self.items_spec().len() ==> r
                == WriteAction::Write(self.written() as usize),
            self.failure_spec() is None && self.written() == self.items_spec().len() ==> r
                == WriteAction::Done,
    {
        if self.failure.is_some() {
            WriteAction::Failed
        } else if self.next < self.items.len() {
            WriteAction::Write(self.next)
        } else {
            WriteAction::Done
        }
    }

    /// Takes the outcome of the write that `next_action` asked for.
    pub fn on_written(&mut self, outcome: Result<(), String>)
        requires
            old(self).wf(),
            old(self).failure_spec() is None,
            old(self).written() < old(self).items_spec().len(),
        ensures
            final(self).wf(),
            final(self).items_spec() == old(self).items_spec(),
            outcome is Ok ==> final(self).written() == old(self).written() + 1
                && final(self).failure_spec() is None,
            outcome is Err ==> final(self).written() == old(self).written()
                && final(self).failure_spec() == Some(outcome->Err_0),
    {
        let n = self.items.len();
        assert(self.next < n);
        match outcome {
            Ok(()) => self.next = self.next + 1,
            Err(e) => self.failure = Some(e),
        }
    }

    /// The failure that stopped the run, as a backend error.
    pub fn error(&self) -> (r: Option<BackendError>)
        ensures
            self.failure_spec() is None ==> r is None,
            self.failure_spec() is Some ==> r == Some(BackendError::Write(self.failure_spec()->Some_0)),
    {
        match &self.failure {
            Some(e) => Some(BackendError::Write(e.clone())),
            None => None,
        }
    }
}

/// A file as the persistence layer stores it.
#[derive(Debug)]
pub struct FileRecord {
    pub name: String,
    pub content: String,
}

/// One chunk of a stored file.
#[derive(Debug)]
pub struct FileChunkRecord {
    pub file_name: String,
    pub index: u64,
    pub content: String,
}

/// One write of a file's storage: the file record, or one of its chunks.
#[derive(Debug)]
pub enum FileWrite {
    File(FileRecord),
    Chunk(FileChunkRecord),
}

/// The writes that store a file: the file record first, then each chunk in order.
pub fn file_writes(file: FileRecord, chunks: Vec<FileChunkRecord>) -> (r: Vec<FileWrite>)
    ensures
        r@.len() == chunks@.len() + 1,
        r@[0] == FileWrite::File(file),
        forall|i: int| 0 <= i < chunks@.len() ==> #[trigger] r@[i + 1] == FileWrite::Chunk(chunks@[i]),
{
    let ghost cs = chunks@;
    let total: usize = chunks.len();
    let mut out: Vec<FileWrite> = Vec::with_capacity(1);
    out.push(FileWrite::File(file));
    let mut rest = chunks;
    assert(rest@ =~= cs.subrange(0, cs.len() as int));
    let mut i: usize = 0;
    while rest.len() > 0
        invariant
            i + rest@.len() == cs.len(),
            cs.len() == total,
            rest@ =~= cs.subrange(i as int, cs.len() as int),
            out@.len() == i + 1,
            out@[0] == FileWrite::File(file),
            forall|j: int| 0 <= j < i ==> #[trigger] out@[j + 1] == FileWrite::Chunk(cs[j]),
        decreases rest@.len(),
    {
        let c = rest.remove(0);
        proof {
            assert(c == cs[i as int]);
        }
        out.push(FileWrite::Chunk(c));
        i = i + 1;
        proof {
            assert(rest@ =~= cs.subrange(i as int, cs.len() as int));
        }
    }
    out
}

/// The records that saving `messages` writes, one per message, in order.
pub fn records_for(messages: &Vec<Message>) -> (r: Vec<MessageRecord>)
    ensures
        records_view(r@) == messages_view(messages@).map_values(|m: (Role, Seq<char>)| record_of(m)),
{
    let mut out: Vec<MessageRecord> = Vec::with_capacity(messages.len());
    let mut i: usize = 0;
    while i < messages.len()
        invariant
            i <= messages@.len(),
            records_view(out@) == messages_view(messages@.subrange(0, i as int)).map_values(
                |m: (Role, Seq<char>)| record_of(m),
            ),
        decreases messages@.len() - i,
    {
        let ghost prev = out@;
        out.push(MessageRecord::from_message(&messages[i]));
        proof {
            assert(messages@.subrange(0, i + 1) =~= messages@.subrange(0, i as int).push(messages@[i as int]));
            assert(records_view(out@) =~= records_view(prev).push(record_view(out@[i as int])));
            assert(messages_view(messages@.subrange(0, i + 1)).map_values(|m: (Role, Seq<char>)| record_of(m))
                =~= messages_view(messages@.subrange(0, i as int)).map_values(|m: (Role, Seq<char>)| record_of(m)).push(
                record_of(message_view(messages@[i as int]))));
        }
        i = i + 1;
    }
    assert(messages@.subrange(0, i as int) =~= messages@);
    out
}

} // verus!

verus! {

/// A role's name reads back as that role.
pub proof fn lemma_role_name_round_trip(role: Role)
    ensures
        role_from_name_spec(role_name_spec(role)) == Some(role),
{
    assert(role_name_spec(Role::User).len() == 4);
    assert(role_name_spec(Role::Assistant).len() == 9);
    assert(role_name_spec(Role::System).len() == 6);
}

/// Saving to a durable thread and loading it again gives back the messages in
/// the order they were saved, after those the thread already held; this holds
/// for any number of save and load cycles on the same thread, since each load
/// reads every record the saves have written.
pub proof fn lemma_durable_save_then_load(
    before: Seq<(Seq<char>, Seq<char>)>,
    saved: Seq<(Role, Seq<char>)>,
)
    requires
        records_parse(before),
    ensures
        records_parse(before + saved.map_values(|m: (Role, Seq<char>)| record_of(m))),
        parsed(before + saved.map_values(|m: (Role, Seq<char>)| record_of(m))) == parsed(before)
            + saved,
{
    let written = saved.map_values(|m: (Role, Seq<char>)| record_of(m));
    let all = before + written;
    assert forall|i: int| 0 <= i < all.len() implies (#[trigger] role_from_name_spec(all[i].0)) is Some by {
        if i >= before.len() {
            lemma_role_name_round_trip(saved[i - before.len()].0);
        }
    }
    assert forall|i: int| 0 <= i < saved.len() implies #[trigger] parsed(all)[before.len() + i] == saved[i] by {
        lemma_role_name_round_trip(saved[i].0);
        assert(all[before.len() + i] == written[i]);
    }
    assert(parsed(all) =~= parsed(before) + saved);
}

/// A thread is created at most once per load: only the answer "missing" to
/// the first lookup leads to a creation, and no step leads back to the lookup.
pub proof fn lemma_create_at_most_once(phase: LoadPhase, ev: StoreEvent, a: LoadAction)
    requires
        load_action_spec(phase, ev, a),
    ensures
        a is CreateThread ==> phase == LoadPhase::LookUp && ev is ThreadMissing,
        next_phase(phase, ev) != LoadPhase::LookUp,
{
}

/// Loading a thread that does not exist yet creates it once, then reads its
/// (empty) list of messages: the load succeeds with no message.
pub proof fn lemma_missing_thread_loads_empty(
    a1: LoadAction,
    a2: LoadAction,
    a3: LoadAction,
    records: Vec<MessageRecord>,
)
    requires
        records@.len() == 0,
        load_action_spec(LoadPhase::LookUp, StoreEvent::ThreadMissing, a1),
        load_action_spec(
            next_phase(LoadPhase::LookUp, StoreEvent::ThreadMissing),
            StoreEvent::ThreadCreated,
            a2,
        ),
        load_action_spec(
            next_phase(
                next_phase(LoadPhase::LookUp, StoreEvent::ThreadMissing),
                StoreEvent::ThreadCreated,
            ),
            StoreEvent::Records(records),
            a3,
        ),
    ensures
        a1 is CreateThread,
        a2 is GetMessages,
        a3 is Done,
        a3->Done_0@.len() == 0,
{
    assert(records_view(records@).len() == 0);
    assert(records_parse(records_view(records@)));
    assert(parsed(records_view(records@)).len() == 0);
    assert(messages_view(a3->Done_0@).len() == a3->Done_0@.len());
}

} // verus!
