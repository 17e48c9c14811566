//! Building the initial memory image of a guest program.

use crate::error::PipelineError;
use risc0_binfmt::{MemoryImage, Program};
use vstd::prelude::*;

verus! {

#[verifier::external_type_specification]
#[verifier::external_body]
pub struct ExMemoryImage(MemoryImage);

#[verifier::external_type_specification]
#[verifier::external_body]
pub struct ExProgram(Program);

#[verifier::external_type_specification]
#[verifier::external_body]
pub struct ExAnyhowError(anyhow::Error);

/// The program that the backend's loader makes of `elf` under the bound
/// `max_mem`, if it accepts the bytes.
pub uninterp spec fn loaded(elf: Seq<u8>, max_mem: u32) -> Option<Program>;

/// Whether every address that `program` occupies, and its entry point, lie
/// below `bound`.
pub uninterp spec fn program_below(program: Program, bound: u32) -> bool;

/// Whether every word of `program` lies at an address that is a multiple of
/// the word size, so that no word straddles two pages.
pub uninterp spec fn program_aligned(program: Program) -> bool;

/// The memory image that the backend lays out for `program` in pages of
/// `page_size` bytes.
pub uninterp spec fn image_built(program: Program, page_size: u32) -> MemoryImage;

/// Whether the backend's loader accepts `elf` as a program all of whose
/// addresses lie below `max_mem`.
pub open spec fn elf_loads(elf: Seq<u8>, max_mem: u32) -> bool {
    loaded(elf, max_mem) is Some
}

/// The memory image of the executable `elf`, where the loader accepts it
/// within the guest memory bound.
pub open spec fn image_of(elf: Seq<u8>) -> MemoryImage
    recommends
        elf_loads(elf, 0x0C00_0000),
{
    image_built(loaded(elf, 0x0C00_0000)->Some_0, 1024)
}

/// The longest executable, in bytes, whose file offsets the loader can
/// address.
pub const MAX_ELF_LEN: usize = 0xFFFF_FFFF;

/// Whether `elf` is a well-formed executable: one that the loader accepts
/// once no memory bound stands in its way.
pub open spec fn well_formed(elf: Seq<u8>) -> bool {
    elf.len() <= MAX_ELF_LEN && elf_loads(elf, u32::MAX)
}

/// Whether `elf` is an executable that fits the guest memory bound.
pub open spec fn fits_guest_memory(elf: Seq<u8>) -> bool {
    elf.len() <= MAX_ELF_LEN && elf_loads(elf, 0x0C00_0000)
}

/// The highest address, exclusive, that a guest program may occupy.
///
/// Trusted: reads `risc0_zkvm_platform::memory::GUEST_MAX_MEM`, the start of
/// the platform's system region.
#[verifier::external_body]
fn guest_max_mem() -> (bound: u32)
    ensures
        bound == 0x0C00_0000,
{
    risc0_zkvm_platform::memory::GUEST_MAX_MEM as u32
}

/// The size of a memory page in bytes.
///
/// Trusted: reads `risc0_zkvm_platform::PAGE_SIZE`.
#[verifier::external_body]
fn page_size() -> (size: u32)
    ensures
        size == 1024,
{
    risc0_zkvm_platform::PAGE_SIZE as u32
}

/// Parses `elf` into a program bounded by `max_mem`.
///
/// Trusted: calls `risc0_binfmt::Program::load_elf`. The loader reads nothing
/// but its two arguments, so its result is a fixed function of them, which the
/// contract names and does not define. It refuses every address and entry
/// point at or above `max_mem`, and every segment that does not start on a
/// word boundary, and it places words four bytes apart; so a program that it
/// returns lies below the bound and is word-aligned. It adds file offsets in
/// 32-bit arithmetic, which cannot overflow before it runs off the end of an
/// input shorter than 4 GiB; longer inputs are left out.
#[verifier::external_body]
fn load_program(elf: &[u8], max_mem: u32) -> (r: Result<Program, anyhow::Error>)
    requires
        elf@.len() <= 0xFFFF_FFFF,
    ensures
        r is Ok == (loaded(elf@, max_mem) is Some),
        r matches Ok(program) ==> {
            &&& loaded(elf@, max_mem) == Some(program)
            &&& program_below(program, max_mem)
            &&& program_aligned(program)
        },
{
    Program::load_elf(elf, max_mem)
}

/// Lays `program` out in pages of the platform's page size and hashes them.
///
/// Trusted: calls `risc0_binfmt::MemoryImage::new`. It asserts that the page
/// size is a power of two that divides the page table's address; the
/// platform's page size of 1024 bytes is, and no other is admitted. It writes
/// each word into its page at the word's offset, which stays within the page
/// only for a word-aligned address; programs with any other are left out. It
/// fails only on an address at or above the guest memory bound, and its result
/// depends on nothing but the program and the page size.
#[verifier::external_body]
fn build_image(program: &Program, page_size: u32) -> (r: Result<MemoryImage, anyhow::Error>)
    requires
        page_size == 1024,
        program_aligned(*program),
    ensures
        program_below(*program, 0x0C00_0000) ==> r is Ok,
        r matches Ok(image) ==> image == image_built(*program, page_size),
{
    MemoryImage::new(program, page_size)
}

/// A copy of `image`.
///
/// Trusted: calls the `Clone` impl that `risc0_binfmt` derives for
/// `MemoryImage`, which copies every field.
#[verifier::external_body]
fn clone_image(image: &MemoryImage) -> (copy: MemoryImage)
    ensures
        copy == *image,
{
    image.clone()
}

/// Why building an image failed, given that the load within the guest bound
/// was refused: an executable that loads once the bound is out of the way
/// needs more memory than a guest has, any other is not a loadable program at
/// all.
pub fn load_failure(loads_without_bound: bool) -> (e: PipelineError)
    ensures
        e == if loads_without_bound {
            PipelineError::MemoryBoundExceeded
        } else {
            PipelineError::InvalidExecutable
        },
{
    if loads_without_bound {
        PipelineError::MemoryBoundExceeded
    } else {
        PipelineError::InvalidExecutable
    }
}

/// The initial machine state of a guest program: its memory, laid out in
/// pages, and its entry point.
pub struct Image {
    memory_image: MemoryImage,
}

impl Image {
    /// The backend's memory image that this image holds.
    pub closed spec fn memory_image(&self) -> MemoryImage {
        self.memory_image
    }

    /// Builds the memory image of the executable `elf`, within the platform's
    /// guest memory bound and with its page size.
    ///
    /// An image is built exactly where the executable fits the guest memory
    /// bound, and it is a fixed function of the bytes. A well-formed
    /// executable that does not fit exceeds the memory bound, wherever in the
    /// 32-bit address space it asks for memory. Anything else is invalid:
    /// bytes that the loader refuses whatever the bound, and an input of
    /// 4 GiB or more, which the loader cannot address.
    ///
    /// Telling the two failures apart loads the executable a second time
    /// without a bound, which takes time and memory in proportion to the
    /// memory that the executable asks for.
    pub fn from_elf(elf: &[u8]) -> (r: Result<Image, PipelineError>)
        ensures
            r is Ok <==> fits_guest_memory(elf@),
            r matches Ok(image) ==> image.memory_image() == image_of(elf@),
            r matches Err(e) ==> e == (if well_formed(elf@) {
                PipelineError::MemoryBoundExceeded
            } else {
                PipelineError::InvalidExecutable
            }),
    {
        if elf.len() > MAX_ELF_LEN {
            return Err(PipelineError::InvalidExecutable);
        }
        match load_program(elf, guest_max_mem()) {
            Ok(program) => match build_image(&program, page_size()) {
                Ok(memory_image) => Ok(Image { memory_image }),
                Err(_) => Err(PipelineError::MemoryBoundExceeded),
            },
            Err(_) => {
                let unbounded = load_program(elf, u32::MAX);
                Err(load_failure(unbounded.is_ok()))
            },
        }
    }

    /// A copy of the memory image, for a run of its own.
    pub fn get_image(&self) -> (image: MemoryImage)
        ensures
            image == self.memory_image(),
    {
        clone_image(&self.memory_image)
    }
}

} // verus!
