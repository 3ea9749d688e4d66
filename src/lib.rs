pub mod agent;
pub mod bridge;
pub mod buffer;
pub mod durable;
pub mod language_models;
pub mod memory;
pub mod message;
pub mod stream;

pub use agent::{Agent, AgentSettings, BufferDisplay, Context};
pub use bridge::{settle, BridgeError, WorkerReport};
pub use buffer::ConversationBuffer;
pub use durable::{BackendError, DurableLoad, LoadAction, MessageRecord, StoreEvent, WriteAction, WritePlan};
pub use language_models::{Gpt, LanguageModel};
pub use memory::{LoadedMemory, Memory, MemoryLoad, VolatileCache};
pub use message::{Message, Role};
pub use stream::{Forwarder, ForwardAction, ReceiverHandle, TokenChannel, CHANNEL_CAPACITY};

