//! Native side of `org.apache.lucene.index.memory.MemoryIndex.add`: the host
//! runtime hands over its invocation context, the receiver, and two 32-bit
//! signed integers, and gets back their sum.
//!
//! Overflow is settled as two's-complement wraparound, so the operation is
//! total: it never traps, and nothing can unwind across the native boundary.
use vstd::prelude::*;

use jni::objects::JObject;
use jni::JNIEnv;
use libc::c_int;

verus! {

/// The per-call invocation context of the host runtime, carried through opaque.
#[verifier::external_type_specification]
#[verifier::external_body]
pub struct ExJNIEnv<'local>(JNIEnv<'local>);

/// The receiver of the call, carried through opaque and never dereferenced.
#[verifier::external_type_specification]
#[verifier::external_body]
pub struct ExJObject<'local>(JObject<'local>);

/// The host runtime's object type behind a receiver, carried through opaque.
#[verifier::external_type_specification]
#[verifier::external_body]
pub struct ExRawJObject(jni::sys::_jobject);

/// The modulus of 32-bit two's-complement arithmetic.
pub open spec fn modulus32() -> int {
    0x1_0000_0000
}

/// The sum of `a` and `b` as 32-bit two's-complement addition gives it:
/// the mathematical sum, brought back into `i32`'s range by one turn of
/// the modulus where it left that range.
pub open spec fn wrapped_sum(a: int, b: int) -> int {
    let s = a + b;
    if s > i32::MAX {
        s - modulus32()
    } else if s < i32::MIN {
        s + modulus32()
    } else {
        s
    }
}

/// Adds two 32-bit signed integers, wrapping around on overflow.
pub fn add_wrapping(a: c_int, b: c_int) -> (r: c_int)
    ensures
        r as int == wrapped_sum(a as int, b as int),
        i32::MIN <= a + b <= i32::MAX ==> r as int == a + b,
        a + b > i32::MAX ==> r as int == a + b - modulus32(),
        a + b < i32::MIN ==> r as int == a + b + modulus32(),
{
    a.wrapping_add(b)
}

/// The native body of `MemoryIndex.add`. The context and the receiver are
/// borrowed for the call only: they are neither read nor kept, and the
/// result depends on `v1` and `v2` alone.
#[allow(non_snake_case)]
pub fn Java_org_apache_lucene_index_memory_MemoryIndex_add(
    _env: JNIEnv,
    _class: JObject,
    v1: c_int,
    v2: c_int,
) -> (r: c_int)
    ensures
        r as int == wrapped_sum(v1 as int, v2 as int),
{
    add_wrapping(v1, v2)
}

/// Addition is commutative: swapping the operands leaves the sum unchanged,
/// overflow included.
pub proof fn lemma_add_commutative(a: i32, b: i32)
    ensures
        wrapped_sum(a as int, b as int) == wrapped_sum(b as int, a as int),
{
}

/// Every sum is a 32-bit signed integer, and it is congruent to the
/// mathematical sum modulo 2^32.
pub proof fn lemma_sum_in_range(a: i32, b: i32)
    ensures
        i32::MIN <= wrapped_sum(a as int, b as int) <= i32::MAX,
        (wrapped_sum(a as int, b as int) - (a + b)) % modulus32() == 0,
{
}

} // verus!
