//! Managed values of an embeddable bytecode virtual machine: tagged runtime
//! values, reference-counted variables, the protocol through which host-defined
//! native types join the call and attribute model, and per-instance VM state.
pub mod map;
pub mod opcodes;
pub mod state;
pub mod value;
pub mod var;

pub use map::VarMap;
pub use opcodes::{OpCodes, OpDataType};
pub use state::{NativeDeinit, State};
pub use value::{
    Func, FuncSpan, Native, NativeFeature, NativeFn, NativeTypeId, Value, VarError, VarInfo,
};
pub use var::Var;
