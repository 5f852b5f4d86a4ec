use vstd::prelude::*;

verus! {

/// `length` elements of `element_size` bytes each, at `address`, can be a
/// buffer that a caller lends: unless it is empty it does not start at
/// address zero, it starts at a multiple of `alignment`, it is no larger
/// than the largest object, and it ends within the address space.
pub open spec fn is_buffer(address: usize, length: usize, element_size: usize, alignment: usize)
    -> bool {
    &&& length == 0 || address != 0
    &&& alignment != 0 && address % alignment == 0
    &&& length * element_size <= isize::MAX
    &&& address + length * element_size <= usize::MAX
}

/// Whether a pointer and a length that came with a request can be a buffer.
/// What a request declares is checked here before any of it is used.
pub fn check_buffer(address: usize, length: usize, element_size: usize, alignment: usize) -> (ok:
    bool)
    ensures
        ok == is_buffer(address, length, element_size, alignment),
{
    if alignment == 0 || address % alignment != 0 {
        return false;
    }
    if length != 0 && address == 0 {
        return false;
    }
    let bytes: usize = match length.checked_mul(element_size) {
        Some(bytes) => bytes,
        None => {
            return false;
        },
    };
    if bytes > isize::MAX as usize {
        return false;
    }
    address.checked_add(bytes).is_some()
}

} // verus!
