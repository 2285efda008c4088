use vstd::prelude::*;

verus! {

/// `memory_addr::VirtAddr`, a virtual address held as an opaque word.
#[verifier::external_type_specification]
#[verifier::external_body]
pub struct ExVirtAddr(memory_addr::VirtAddr);

/// The machine word that a `memory_addr::VirtAddr` stands for.
pub uninterp spec fn virt_addr_word(addr: memory_addr::VirtAddr) -> usize;

/// Calls `memory_addr::VirtAddr::as_usize`, which hands back the word the
/// address wraps; the contract names that word `virt_addr_word(addr)`.
#[verifier::external_body]
pub(crate) fn virt_addr_as_usize(addr: memory_addr::VirtAddr) -> (word: usize)
    ensures
        word == virt_addr_word(addr),
{
    addr.as_usize()
}

} // verus!
