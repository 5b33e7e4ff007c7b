//! The buffer-compute flows.
//!
//! The multiply flow fills a buffer with the integers 0, 1, 2, ... and
//! dispatches a shader that multiplies every element by 12 in the shader's
//! wrapping 32-bit arithmetic; the copy flow fills a source buffer the same
//! way, zeroes a destination of equal size, and copies the source over it.
//! Both then read the result back and check it element by element.  The
//! dispatch and the copy are modelled here exactly, and the read-back checks
//! are verified decision procedures the shell runs on what the accelerator
//! returned.

use vstd::prelude::*;

use vstd::arithmetic::div_mod::lemma_small_mod;

verus! {

/// The factor the multiply shader applies to every element.
pub const MULTIPLY_FACTOR: u32 = 12;

/// One element as the multiply shader leaves it: multiplied by 12 in the
/// wrapping 32-bit arithmetic of the shader.
pub open spec fn mul12(x: u32) -> u32 {
    (((x as int) * (MULTIPLY_FACTOR as int)) % 0x1_0000_0000) as u32
}

/// The integers 0, 1, ..., n - 1, the fixed input of both buffer flows.
pub fn make_range_data(n: u32) -> (r: Vec<u32>)
    ensures
        r@.len() == n,
        forall|i: int| 0 <= i < n ==> r@[i] == i,
{
    let mut r: Vec<u32> = Vec::new();
    let mut i: u32 = 0;
    while i < n
        invariant
            i <= n,
            r@.len() == i,
            forall|k: int| 0 <= k < i ==> r@[k] == k,
        decreases n - i,
    {
        r.push(i);
        i = i + 1;
    }
    r
}

/// n zeroes: the initial content of the copy flow's destination buffer.
pub fn make_zero_data(n: u32) -> (r: Vec<u32>)
    ensures
        r@.len() == n,
        forall|i: int| 0 <= i < n ==> r@[i] == 0,
{
    let mut r: Vec<u32> = Vec::new();
    let mut i: u32 = 0;
    while i < n
        invariant
            i <= n,
            r@.len() == i,
            forall|k: int| 0 <= k < i ==> r@[k] == 0,
        decreases n - i,
    {
        r.push(0);
        i = i + 1;
    }
    r
}

/// The multiply dispatch, modelled on the host: every element of `data`
/// multiplied by 12 with 32-bit wrap-around, as the shader computes it.
pub fn multiply(data: &Vec<u32>) -> (r: Vec<u32>)
    ensures
        r@.len() == data@.len(),
        forall|i: int| 0 <= i < data@.len() ==> r@[i] == mul12(data@[i]),
{
    let mut r: Vec<u32> = Vec::new();
    let n = data.len();
    let mut i: usize = 0;
    while i < n
        invariant
            n == data@.len(),
            i <= n,
            r@.len() == i,
            forall|k: int| 0 <= k < i ==> r@[k] == mul12(data@[k]),
        decreases n - i,
    {
        let wide: u64 = (data[i] as u64) * (MULTIPLY_FACTOR as u64);
        let wrapped: u64 = wide % 0x1_0000_0000;
        r.push(wrapped as u32);
        i = i + 1;
    }
    r
}

/// The copy dispatch, modelled on the host: the destination buffer, of the
/// same size as the source, holds exactly the source's content afterwards.
pub fn copy_buffer(source: &Vec<u32>, dest: &mut Vec<u32>)
    requires
        old(dest)@.len() == source@.len(),
    ensures
        final(dest)@ == source@,
{
    let n = source.len();
    let mut i: usize = 0;
    while i < n
        invariant
            n == source@.len(),
            dest@.len() == n,
            i <= n,
            forall|k: int| 0 <= k < i ==> dest@[k] == source@[k],
        decreases n - i,
    {
        let v = source[i];
        dest.set(i, v);
        i = i + 1;
    }
    proof {
        assert(dest@ =~= source@);
    }
}

/// Whether `output` is exactly what the multiply dispatch makes of `input`:
/// the element-by-element read-back check of the multiply flow.
pub fn check_multiplied(input: &Vec<u32>, output: &Vec<u32>) -> (r: bool)
    ensures
        r <==> (output@.len() == input@.len() && forall|i: int|
            0 <= i < input@.len() ==> output@[i] == mul12(input@[i])),
{
    if output.len() != input.len() {
        return false;
    }
    let n = input.len();
    let mut i: usize = 0;
    while i < n
        invariant
            n == input@.len(),
            n == output@.len(),
            i <= n,
            forall|k: int| 0 <= k < i ==> output@[k] == mul12(input@[k]),
        decreases n - i,
    {
        let wide: u64 = (input[i] as u64) * (MULTIPLY_FACTOR as u64);
        let wrapped: u64 = wide % 0x1_0000_0000;
        if output[i] != wrapped as u32 {
            return false;
        }
        i = i + 1;
    }
    true
}

/// Whether two buffers hold exactly the same content: the read-back check of
/// the copy flow.
pub fn buffers_equal(a: &Vec<u32>, b: &Vec<u32>) -> (r: bool)
    ensures
        r <==> a@ == b@,
{
    if a.len() != b.len() {
        return false;
    }
    let n = a.len();
    let mut i: usize = 0;
    while i < n
        invariant
            n == a@.len(),
            n == b@.len(),
            i <= n,
            forall|k: int| 0 <= k < i ==> a@[k] == b@[k],
        decreases n - i,
    {
        if a[i] != b[i] {
            return false;
        }
        i = i + 1;
    }
    proof {
        assert(a@ =~= b@);
    }
    true
}

/// The workgroup count of a dispatch: how many groups, of `local_size`
/// invocations each, the flow asks for to span `elements` items — the
/// dispatching flows divide their fixed sizes by their shaders' local size.
pub fn groups_for(elements: u32, local_size: u32) -> (r: u32)
    requires
        local_size > 0,
    ensures
        r == elements / local_size,
{
    elements / local_size
}

/// When the local size divides the element count, the dispatched workgroups
/// cover the elements exactly: as many invocations as items, no item missed
/// and none out of range.
pub proof fn lemma_dispatch_covers(elements: u32, local_size: u32)
    requires
        local_size > 0,
        elements % local_size == 0,
    ensures
        (elements / local_size) * local_size == elements,
{
    let q = (elements as int) / (local_size as int);
    vstd::arithmetic::div_mod::lemma_fundamental_div_mod(elements as int, local_size as int);
    assert(elements as int == (local_size as int) * q + (elements as int) % (local_size as int));
    assert((local_size as int) * q == q * (local_size as int));
}

/// For the multiply flow's fixed input 0, 1, ..., n - 1, with n small enough
/// that no product wraps, the dispatch leaves 12 * i at every index i: what
/// `multiply` ensures of any input, applied to the range input.
pub proof fn lemma_multiply_of_range(input: Seq<u32>, output: Seq<u32>, i: int)
    requires
        forall|k: int| 0 <= k < input.len() ==> input[k] == k,
        output.len() == input.len(),
        forall|k: int| 0 <= k < input.len() ==> output[k] == mul12(input[k]),
        input.len() * (MULTIPLY_FACTOR as int) <= 0x1_0000_0000,
        0 <= i < output.len(),
    ensures
        output[i] == (MULTIPLY_FACTOR as int) * i,
{
    assert(input[i] == i);
    assert(i * (MULTIPLY_FACTOR as int) < 0x1_0000_0000) by (nonlinear_arith)
        requires
            0 <= i < input.len(),
            input.len() * (MULTIPLY_FACTOR as int) <= 0x1_0000_0000,
    ;
    lemma_small_mod((i * (MULTIPLY_FACTOR as int)) as nat, 0x1_0000_0000);
}

} // verus!
