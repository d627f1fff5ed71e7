//! The decisions that the compiler's reflection queries make on what the
//! native compiler reports: decoding entry points, splitting scalar
//! constants, collecting active interface variables, and refusing names
//! that cannot cross into the native compiler.
use crate::c_string::{c_compatible, is_c_compatible};
use crate::error::ErrorCode;
use crate::spirv::{
    execution_model_code, execution_model_of_code, EntryPoint, ExecutionModel, Resource, WorkGroupSize,
};
use std::collections::HashSet;
use vstd::prelude::*;

verus! {

/// An entry point as the native compiler reports it, with its execution
/// model as a SPIR-V code.
#[derive(Debug, Clone)]
pub struct RawEntryPoint {
    pub name: String,
    pub execution_model: u32,
    pub work_group_size_x: u32,
    pub work_group_size_y: u32,
    pub work_group_size_z: u32,
}

/// The entry point that a raw report describes, when its execution model is
/// handled.
pub open spec fn entry_point_matches(e: EntryPoint, raw: RawEntryPoint) -> bool {
    &&& e.name@ == raw.name@
    &&& execution_model_of_code(raw.execution_model) == Some(e.execution_model)
    &&& e.work_group_size == WorkGroupSize {
        x: raw.work_group_size_x,
        y: raw.work_group_size_y,
        z: raw.work_group_size_z,
    }
}

/// Decodes the entry points the native compiler reports. Fails with
/// `Unhandled` exactly when one of them has an execution model the library
/// does not handle; otherwise gives one entry point per report, in order.
pub fn entry_points_from_raw(raw: &Vec<RawEntryPoint>) -> (r: Result<Vec<EntryPoint>, ErrorCode>)
    ensures
        r is Ok <==> forall|i: int|
            0 <= i < raw@.len() ==> (#[trigger] execution_model_of_code(raw@[i].execution_model)) is Some,
        r matches Err(e) ==> e is Unhandled,
        r matches Ok(v) ==> v@.len() == raw@.len() && forall|i: int|
            0 <= i < raw@.len() ==> entry_point_matches(#[trigger] v@[i], raw@[i]),
        r matches Ok(v) ==> forall|i: int|
            0 <= i < raw@.len() ==> {
                &&& (#[trigger] v@[i]).name@ == raw@[i].name@
                &&& execution_model_code(v@[i].execution_model) == raw@[i].execution_model
                &&& v@[i].work_group_size.x == raw@[i].work_group_size_x
                &&& v@[i].work_group_size.y == raw@[i].work_group_size_y
                &&& v@[i].work_group_size.z == raw@[i].work_group_size_z
            },
{
    let mut result: Vec<EntryPoint> = Vec::new();
    let n = raw.len();
    let mut i: usize = 0;
    while i < n
        invariant
            n == raw@.len(),
            i <= n,
            result@.len() == i,
            forall|j: int| 0 <= j < i ==> (#[trigger] execution_model_of_code(raw@[j].execution_model)) is Some,
            forall|j: int| 0 <= j < i ==> entry_point_matches(#[trigger] result@[j], raw@[j]),
            forall|j: int|
                0 <= j < i ==> execution_model_code((#[trigger] result@[j]).execution_model)
                    == raw@[j].execution_model,
        decreases n - i,
    {
        let r = &raw[i];
        let execution_model = match ExecutionModel::from_raw(r.execution_model) {
            Ok(m) => m,
            Err(e) => {
                return Err(e);
            },
        };
        let entry_point = EntryPoint {
            name: r.name.clone(),
            execution_model,
            work_group_size: WorkGroupSize {
                x: r.work_group_size_x,
                y: r.work_group_size_y,
                z: r.work_group_size_z,
            },
        };
        proof {
            crate::spirv::lemma_execution_model_round_trip(
                entry_point.execution_model,
                r.execution_model,
            );
        }
        result.push(entry_point);
        i += 1;
    }
    Ok(result)
}

/// Splits a 64-bit scalar constant into the high and low 32-bit words that
/// the native compiler takes.
pub fn split_scalar_constant(value: u64) -> (r: (u32, u32))
    ensures
        r.0 == value / 0x1_0000_0000,
        r.1 == value % 0x1_0000_0000,
{
    let high_bits = (value >> 32u64) as u32;
    let low_bits = value as u32;
    assert(high_bits == value / 0x1_0000_0000) by (bit_vector)
        requires
            high_bits == (value >> 32u64) as u32,
    ;
    assert(low_bits == value % 0x1_0000_0000) by (bit_vector)
        requires
            low_bits == value as u32,
    ;
    (high_bits, low_bits)
}

/// The two words of a split scalar constant recombine to the constant.
pub proof fn lemma_split_scalar_constant_recombines(value: u64, high: u32, low: u32)
    requires
        high == value / 0x1_0000_0000,
        low == value % 0x1_0000_0000,
    ensures
        high * 0x1_0000_0000 + low == value,
{
}

/// The set of active interface variable ids in a list the native compiler
/// reports.
pub fn active_interface_variables(ids: &Vec<u32>) -> (r: HashSet<u32>)
    ensures
        r@ == ids@.to_set(),
{
    broadcast use vstd::std_specs::hash::group_hash_axioms;
    let mut result: HashSet<u32> = HashSet::new();
    let n = ids.len();
    let mut i: usize = 0;
    while i < n
        invariant
            n == ids@.len(),
            i <= n,
            result@ == ids@.take(i as int).to_set(),
        decreases n - i,
    {
        result.insert(ids[i]);
        assert(ids@.take(i + 1) == ids@.take(i as int).push(ids@[i as int]));
        proof {
            ids@.take(i as int).lemma_push_to_set_commute(ids@[i as int]);
        }
        i += 1;
    }
    assert(ids@.take(n as int) == ids@);
    result
}

/// Whether renaming an interface variable can be handed to the native
/// compiler: every resource's name and the new name must be C strings.
/// `Unhandled` exactly when one of them has a NUL byte.
pub fn check_interface_variable_names(resources: &[Resource], new_name: &str) -> (r: Result<(), ErrorCode>)
    ensures
        r is Ok <==> (forall|i: int|
            0 <= i < resources@.len() ==> is_c_compatible(#[trigger] resources@[i].name@))
            && is_c_compatible(new_name@),
        r matches Err(e) ==> e is Unhandled,
{
    let n = resources.len();
    let mut i: usize = 0;
    while i < n
        invariant
            n == resources@.len(),
            i <= n,
            forall|j: int| 0 <= j < i ==> is_c_compatible(#[trigger] resources@[j].name@),
        decreases n - i,
    {
        if !c_compatible(resources[i].name.as_str()) {
            return Err(ErrorCode::Unhandled);
        }
        i += 1;
    }
    if !c_compatible(new_name) {
        return Err(ErrorCode::Unhandled);
    }
    Ok(())
}

} // verus!
