//! Class and method metadata as the call stack consumes it.
//!
//! Class loading and constant-pool resolution happen upstream; the frames
//! only hold shared, immutable handles to the loaded data: a class, the
//! method's bytecode, and its exception-handler table.

use crate::descriptor::MethodDescriptor;
use std::sync::Arc;
use vstd::prelude::*;

verus! {

/// A loaded class: an opaque shared handle that exposes a displayable name.
pub struct Klass {
    pub name: String,
}

/// One record of a method's exception-handler table: a covered code range,
/// the handler's entry point, and the matched exception type. Stored and
/// exposed by this layer, interpreted only by the exception dispatcher.
#[derive(Clone, Copy, PartialEq, Eq, Structural, Debug)]
pub struct ExceptionHandler {
    pub start_pc: u16,
    pub end_pc: u16,
    pub handler_pc: u16,
    pub catch_type: u16,
}

/// A method's executable code attribute: declared operand-stack depth and
/// local-variable count in slot-widths, the bytecode, and the handler table.
/// Absent for abstract and interface methods.
pub struct CodeAttribute {
    pub max_stack: u16,
    pub max_locals: u16,
    pub code: Arc<Vec<u8>>,
    pub exception_handlers: Arc<Vec<ExceptionHandler>>,
}

/// A resolved method: its identity (name, resolved descriptor, access
/// flags) and, when it has a body, its code attribute.
pub struct Method {
    pub name: String,
    pub descriptor: Arc<MethodDescriptor>,
    pub access_flags: u16,
    pub code_attribute: Option<CodeAttribute>,
}

/// Relies on `Arc::clone`: the returned handle refers to the same
/// underlying allocation, so it carries the same value.
#[verifier::external_body]
pub fn clone_arc<T>(a: &Arc<T>) -> (r: Arc<T>)
    ensures
        r == *a,
{
    Arc::clone(a)
}

} // verus!
