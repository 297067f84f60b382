//! Sizing of a compute dispatch: how many workgroups an input needs and how
//! many bytes their results occupy.
//!
//! The group count is the input length divided by the workgroup size, rounded
//! up. Rounding down would leave the tail of the input without a group and the
//! output buffer one word short.

use vstd::prelude::*;
use vstd::arithmetic::div_mod::lemma_fundamental_div_mod;
use vstd::arithmetic::div_mod::lemma_fundamental_div_mod_converse_div;

verus! {

/// Width in bytes of one result word.
pub const WORD_BYTES: u64 = 4;

/// The outcome of planning: one result word per workgroup.
#[derive(Clone, Copy, Debug, PartialEq, Eq, Structural)]
pub struct DispatchPlan {
    /// Workgroups dispatched along X.
    pub group_count: u32,
    /// Size in bytes of the output and staging buffers.
    pub output_bytes: u64,
}

/// Why no plan exists for a pair of sizes.
#[derive(Clone, Copy, Debug, PartialEq, Eq, Structural)]
pub enum PlanError {
    /// There is nothing to reduce.
    EmptyInput,
    /// The device reported a workgroup width of zero.
    ZeroWorkgroupSize,
    /// The group count does not fit the 32 bits a dispatch takes.
    TooManyGroups,
}

/// Number of workgroups of `workgroup_size` invocations needed to cover
/// `input_length` items: the quotient rounded up.
pub open spec fn groups_needed(input_length: nat, workgroup_size: nat) -> nat
    recommends
        workgroup_size > 0,
{
    ((input_length + workgroup_size - 1) / (workgroup_size as int)) as nat
}

/// The plan for an input of `input_length` items on a device whose workgroups
/// are `workgroup_size` wide, or the reason there is none.
pub open spec fn plan_for(input_length: nat, workgroup_size: nat) -> Result<DispatchPlan, PlanError> {
    if input_length == 0 {
        Err(PlanError::EmptyInput)
    } else if workgroup_size == 0 {
        Err(PlanError::ZeroWorkgroupSize)
    } else if groups_needed(input_length, workgroup_size) > u32::MAX {
        Err(PlanError::TooManyGroups)
    } else {
        Ok(
            DispatchPlan {
                group_count: groups_needed(input_length, workgroup_size) as u32,
                output_bytes: (groups_needed(input_length, workgroup_size) * WORD_BYTES) as u64,
            },
        )
    }
}

impl DispatchPlan {
    /// A plan dispatches at least one group and reserves one word per group.
    pub open spec fn wf(self) -> bool {
        &&& self.group_count >= 1
        &&& self.output_bytes == self.group_count * WORD_BYTES
    }
}

/// The rounded-up quotient is the whole quotient, plus one where a remainder
/// is left.
pub proof fn lemma_groups_needed_split(input_length: nat, workgroup_size: nat)
    requires
        workgroup_size > 0,
    ensures
        groups_needed(input_length, workgroup_size) == input_length / workgroup_size + (if input_length
            % workgroup_size == 0 {
            0nat
        } else {
            1nat
        }),
{
    let n = input_length as int;
    let w = workgroup_size as int;
    let q = n / w;
    let r = n % w;
    lemma_fundamental_div_mod(n, w);
    assert(w * q == q * w) by (nonlinear_arith);
    if r == 0 {
        lemma_fundamental_div_mod_converse_div(n + w - 1, w, q, w - 1);
    } else {
        assert((q + 1) * w == q * w + w) by (nonlinear_arith);
        lemma_fundamental_div_mod_converse_div(n + w - 1, w, q + 1, r - 1);
    }
}

/// The groups cover the whole input, and one group fewer would not: the count
/// is the rounded-up quotient and nothing else.
pub proof fn lemma_groups_cover_input(input_length: nat, workgroup_size: nat)
    requires
        input_length > 0,
        workgroup_size > 0,
    ensures
        groups_needed(input_length, workgroup_size) >= 1,
        groups_needed(input_length, workgroup_size) * workgroup_size >= input_length,
        (groups_needed(input_length, workgroup_size) - 1) * workgroup_size < input_length,
        groups_needed(input_length, workgroup_size) <= input_length,
{
    let n = input_length as int;
    let w = workgroup_size as int;
    let q = n / w;
    let r = n % w;
    lemma_groups_needed_split(input_length, workgroup_size);
    lemma_fundamental_div_mod(n, w);
    assert(w * q == q * w) by (nonlinear_arith);
    assert((q + 1) * w == q * w + w) by (nonlinear_arith);
    assert((q - 1) * w == q * w - w) by (nonlinear_arith);
    assert(q >= 0 && q * w >= q) by (nonlinear_arith)
        requires
            w >= 1,
            q * w + r == n,
            0 <= r < w,
            n >= 0,
    ;
}

/// Any count whose groups cover the input, while one group fewer would not, is
/// the rounded-up quotient.
pub proof fn lemma_groups_needed_unique(input_length: nat, workgroup_size: nat, count: int)
    requires
        workgroup_size > 0,
        count * workgroup_size >= input_length,
        (count - 1) * workgroup_size < input_length,
    ensures
        count == groups_needed(input_length, workgroup_size),
{
    let n = input_length as int;
    let w = workgroup_size as int;
    // n + w - 1 == (count - 1) * w + (n - (count - 1) * w - 1) + w, with the
    // bracket in 0..w.
    let r = n + w - 1 - count * w;
    assert((count - 1) * w == count * w - w) by (nonlinear_arith);
    assert(0 <= r < w);
    lemma_fundamental_div_mod_converse_div(n + w - 1, w, count, r);
    assert(count >= 0) by (nonlinear_arith)
        requires
            count * w + r == n + w - 1,
            0 <= r < w,
            n >= 0,
            w >= 1,
    ;
}

/// An input that fills its groups exactly gets the plain quotient, with no
/// extra group.
pub proof fn lemma_exact_division(input_length: nat, workgroup_size: nat)
    requires
        workgroup_size > 0,
        input_length % workgroup_size == 0,
    ensures
        groups_needed(input_length, workgroup_size) == input_length / workgroup_size,
{
    lemma_groups_needed_split(input_length, workgroup_size);
}

/// A single item needs a single group, whatever the workgroup size.
pub proof fn lemma_single_item(workgroup_size: nat)
    requires
        workgroup_size > 0,
    ensures
        groups_needed(1, workgroup_size) == 1,
{
    lemma_groups_needed_unique(1, workgroup_size, 1);
}

/// Whenever a plan exists it is well formed: at least one group, a non-empty
/// output, one word per group.
pub proof fn lemma_plan_wf(input_length: nat, workgroup_size: nat)
    ensures
        plan_for(input_length, workgroup_size) matches Ok(plan) ==> {
            &&& plan.wf()
            &&& plan.output_bytes > 0
            &&& plan.group_count == groups_needed(input_length, workgroup_size)
            &&& plan.group_count * workgroup_size >= input_length
            &&& (plan.group_count - 1) * workgroup_size < input_length
        },
{
    if input_length > 0 && workgroup_size > 0 {
        lemma_groups_cover_input(input_length, workgroup_size);
    }
}

/// Plans the dispatch for `input_length` items on a device whose workgroups
/// are `workgroup_size` wide.
pub fn plan_dispatch(input_length: usize, workgroup_size: u32) -> (planned: Result<
    DispatchPlan,
    PlanError,
>)
    ensures
        planned == plan_for(input_length as nat, workgroup_size as nat),
        planned is Ok <==> input_length > 0 && workgroup_size > 0 && groups_needed(
            input_length as nat,
            workgroup_size as nat,
        ) <= u32::MAX,
        planned matches Ok(plan) ==> {
            &&& plan.wf()
            &&& plan.group_count * workgroup_size >= input_length
            &&& (plan.group_count - 1) * workgroup_size < input_length
        },
{
    if input_length == 0 {
        return Err(PlanError::EmptyInput);
    }
    if workgroup_size == 0 {
        return Err(PlanError::ZeroWorkgroupSize);
    }
    let length: u64 = input_length as u64;
    let width: u64 = workgroup_size as u64;
    proof {
        lemma_groups_needed_split(input_length as nat, workgroup_size as nat);
        lemma_groups_cover_input(input_length as nat, workgroup_size as nat);
    }
    let whole: u64 = length / width;
    let groups: u64 = if length % width == 0 {
        whole
    } else {
        whole + 1
    };
    if groups > u32::MAX as u64 {
        return Err(PlanError::TooManyGroups);
    }
    Ok(DispatchPlan { group_count: groups as u32, output_bytes: groups * WORD_BYTES })
}

} // verus!
