//! Names of shared memory objects and named semaphores, as the kernel takes
//! them: a NUL-terminated byte string.

use vstd::prelude::*;
use crate::error::Error;

verus! {

/// Whether a name can be handed to the kernel: it holds no NUL byte, which
/// would end it early.
pub open spec fn valid_name(name: Seq<u8>) -> bool {
    !name.contains(0u8)
}

/// The NUL-terminated form of a name.
///
/// Fails with `InvalidInput` exactly when the name holds a NUL byte. Whether
/// the name is otherwise acceptable (a leading `/` and no other) is left to
/// the kernel.
pub fn c_name(name: &[u8]) -> (r: Result<Vec<u8>, Error>)
    ensures
        r is Err <==> !valid_name(name@),
        r is Err ==> r == Err::<Vec<u8>, Error>(Error::InvalidInput),
        r matches Ok(v) ==> v@ == name@.push(0u8),
{
    let mut out: Vec<u8> = Vec::new();
    let mut i: usize = 0;
    while i < name.len()
        invariant
            i <= name@.len(),
            out@ == name@.subrange(0, i as int),
            forall|j: int| 0 <= j < i ==> name@[j] != 0u8,
        decreases name@.len() - i,
    {
        let b = name[i];
        if b == 0u8 {
            assert(name@.contains(0u8)) by {
                assert(name@[i as int] == 0u8);
            }
            return Err(Error::InvalidInput);
        }
        out.push(b);
        i = i + 1;
        assert(out@ =~= name@.subrange(0, i as int));
    }
    assert(!name@.contains(0u8));
    assert(out@ =~= name@);
    out.push(0u8);
    Ok(out)
}

} // verus!
