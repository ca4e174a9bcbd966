//! Run-time data areas and the services built on them.

pub mod frame;
pub mod frame_laws;
pub mod heap;
pub mod invocation;
pub mod local_vars;
pub mod native;
pub mod oop;
pub mod operand_stack;
pub mod slot;
pub mod string;
pub mod string_pool;
pub mod table;
pub mod text;
pub mod text_laws;
pub mod type_check;
pub mod type_laws;
pub mod utf16;
pub mod value;
pub mod vm;

pub use frame::{Frame, FrameError};
pub use heap::Heap;
pub use local_vars::LocalVars;
pub use operand_stack::OperandStack;
pub use slot::{Reference, Slot};
pub use string_pool::StringPool;
pub use value::{Value, VmError};
pub use vm::{Vm, VmThread, DEFAULT_STACK_LIMIT};
