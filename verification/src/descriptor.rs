//! The resolved form of a method's type signature.
//!
//! Descriptor string parsing happens upstream; this layer consumes only its
//! output: the ordered parameter categories and the return category, from
//! which the invoke and return protocols compute how many slot-widths to
//! transfer between frames.

use vstd::prelude::*;

verus! {

/// The slot-width class of one declared parameter.
#[derive(Clone, Copy, PartialEq, Eq, Structural, Debug)]
pub enum ParamCategory {
    /// A one-word category: 32-bit integer, float, reference, return address.
    Single,
    /// A two-word (64-bit) category: long or double.
    Wide,
}

/// The slot-width class of a method's return value.
#[derive(Clone, Copy, PartialEq, Eq, Structural, Debug)]
pub enum ReturnCategory {
    /// No value is returned.
    Void,
    /// A one-word value is returned.
    Single,
    /// A two-word (64-bit) value is returned.
    Wide,
}

/// A method's resolved type signature: parameter categories in declaration
/// order, and the return category.
#[derive(Debug)]
pub struct MethodDescriptor {
    pub params: Vec<ParamCategory>,
    pub ret: ReturnCategory,
}

/// How many slot-widths one parameter of category `c` occupies.
pub open spec fn param_slots(c: ParamCategory) -> int {
    match c {
        ParamCategory::Single => 1,
        ParamCategory::Wide => 2,
    }
}

/// How many slot-widths the parameters `params` occupy together.
pub open spec fn params_slot_count(params: Seq<ParamCategory>) -> int
    decreases params.len(),
{
    if params.len() == 0 {
        0
    } else {
        params_slot_count(params.drop_last()) + param_slots(params.last())
    }
}

/// How many slot-widths an invocation of a method with parameters `params`
/// and access flags `access_flags` transfers: the declared parameters, plus
/// one for the implicit receiver when the method is not static.
pub open spec fn arg_slot_count(params: Seq<ParamCategory>, access_flags: u16) -> int {
    params_slot_count(params) + if is_static(access_flags) {
        0int
    } else {
        1int
    }
}

/// How many slot-widths a return of category `ret` transfers.
pub open spec fn return_slot_count(ret: ReturnCategory) -> int {
    match ret {
        ReturnCategory::Void => 0,
        ReturnCategory::Single => 1,
        ReturnCategory::Wide => 2,
    }
}

/// The access-flag bit that marks a method as static (no implicit receiver).
pub const METHOD_ACC_STATIC: u16 = 0x0008;

/// Whether `access_flags` carries the static bit.
pub open spec fn is_static(access_flags: u16) -> bool {
    access_flags & METHOD_ACC_STATIC == METHOD_ACC_STATIC
}

/// Every prefix of a parameter list occupies at least zero and at most as
/// many slot-widths as the whole list.
pub proof fn lemma_params_prefix_bounds(params: Seq<ParamCategory>, i: int)
    requires
        0 <= i <= params.len(),
    ensures
        0 <= params_slot_count(params.take(i)) <= params_slot_count(params),
    decreases params.len() - i,
{
    if i == params.len() {
        assert(params.take(i) =~= params);
        lemma_params_nonneg(params);
    } else {
        lemma_params_prefix_bounds(params, i + 1);
        assert(params.take(i + 1).drop_last() =~= params.take(i));
        assert(params.take(i + 1).last() == params[i]);
        lemma_params_nonneg(params.take(i));
    }
}

/// A parameter list never occupies a negative number of slot-widths.
pub proof fn lemma_params_nonneg(params: Seq<ParamCategory>)
    ensures
        params_slot_count(params) >= 0,
    decreases params.len(),
{
    if params.len() > 0 {
        lemma_params_nonneg(params.drop_last());
    }
}

/// Counts the slot-widths an invocation of a method with descriptor
/// `descriptor` and access flags `access_flags` transfers.
pub fn count_arg_slots(descriptor: &MethodDescriptor, access_flags: u16) -> (n: usize)
    requires
        arg_slot_count(descriptor.params@, access_flags) <= usize::MAX,
    ensures
        n == arg_slot_count(descriptor.params@, access_flags),
{
    proof {
        lemma_params_nonneg(descriptor.params@);
    }
    let mut n: usize = if access_flags & METHOD_ACC_STATIC != METHOD_ACC_STATIC {
        1
    } else {
        0
    };
    let base: usize = n;
    let mut i: usize = 0;
    while i < descriptor.params.len()
        invariant
            i <= descriptor.params@.len(),
            base == if is_static(access_flags) {
                0int
            } else {
                1int
            },
            n == base + params_slot_count(descriptor.params@.take(i as int)),
            arg_slot_count(descriptor.params@, access_flags) <= usize::MAX,
        decreases descriptor.params@.len() - i,
    {
        proof {
            lemma_params_prefix_bounds(descriptor.params@, i + 1);
            assert(descriptor.params@.take(i + 1).drop_last() =~= descriptor.params@.take(i as int));
            assert(descriptor.params@.take(i + 1).last() == descriptor.params@[i as int]);
        }
        n = n + match descriptor.params[i] {
            ParamCategory::Single => 1,
            ParamCategory::Wide => 2,
        };
        i = i + 1;
    }
    proof {
        assert(descriptor.params@.take(descriptor.params@.len() as int) =~= descriptor.params@);
    }
    n
}

/// Counts the slot-widths a return of category `ret` transfers.
pub fn count_return_slots(ret: ReturnCategory) -> (n: usize)
    ensures
        n == return_slot_count(ret),
{
    match ret {
        ReturnCategory::Void => 0,
        ReturnCategory::Single => 1,
        ReturnCategory::Wide => 2,
    }
}

} // verus!
