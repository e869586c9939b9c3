use vstd::prelude::*;

verus! {

/// The size of the guest memory region: 1 MiB, mapped at guest address 0.
pub const VM_MEM_SIZE: usize = 0x10_0000;

/// The legacy load point of an executable image.
pub const LOAD_OFFSET: usize = 0x100;

/// The largest image that fits between the load point and the end of the
/// first 64 KiB segment.
pub const MAX_IMAGE_LEN: usize = 0xff00;

/// Why a guest image cannot be loaded.
#[derive(Clone, Copy, Debug, PartialEq, Eq, Structural)]
pub enum ImageError {
    /// The image is longer than `MAX_IMAGE_LEN` bytes.
    TooLarge { len: usize },
}

/// A zeroed guest memory region.
pub fn guest_memory() -> (r: Vec<u8>)
    ensures
        r@.len() == VM_MEM_SIZE,
        forall|i: int| 0 <= i < VM_MEM_SIZE ==> r@[i] == 0,
{
    vec![0u8; VM_MEM_SIZE]
}

/// Rejects an image of `len` bytes that does not fit at the load point.
pub fn check_image(len: usize) -> (r: Result<(), ImageError>)
    ensures
        r is Ok <==> len <= MAX_IMAGE_LEN,
        r is Err ==> r == Err::<(), ImageError>(ImageError::TooLarge { len }),
{
    if len > MAX_IMAGE_LEN {
        Err(ImageError::TooLarge { len })
    } else {
        Ok(())
    }
}

/// Guest memory after `image` was copied to the load point.
pub open spec fn loaded(mem: Seq<u8>, image: Seq<u8>) -> Seq<u8> {
    Seq::new(
        mem.len(),
        |j: int|
            if LOAD_OFFSET <= j < LOAD_OFFSET + image.len() {
                image[j - LOAD_OFFSET]
            } else {
                mem[j]
            },
    )
}

/// Copies a guest image to the load point of the guest memory region; an
/// image that does not fit is refused and the memory is left as it was.
pub fn load_image(mem: &mut Vec<u8>, image: &[u8]) -> (r: Result<(), ImageError>)
    requires
        old(mem)@.len() == VM_MEM_SIZE,
    ensures
        r is Ok <==> image@.len() <= MAX_IMAGE_LEN,
        r is Ok ==> final(mem)@ == loaded(old(mem)@, image@),
        r is Err ==> r == Err::<(), ImageError>(ImageError::TooLarge { len: image@.len() as usize })
            && final(mem)@ == old(mem)@,
{
    let len = image.len();
    match check_image(len) {
        Err(e) => {
            return Err(e);
        },
        Ok(()) => {},
    }
    let mut i: usize = 0;
    while i < len
        invariant
            len == image@.len(),
            len <= MAX_IMAGE_LEN,
            0 <= i <= len,
            mem@.len() == VM_MEM_SIZE,
            forall|j: int|
                0 <= j < VM_MEM_SIZE ==> #[trigger] mem@[j] == (if LOAD_OFFSET <= j < LOAD_OFFSET + i {
                    image@[j - LOAD_OFFSET]
                } else {
                    old(mem)@[j]
                }),
        decreases len - i,
    {
        mem.set(LOAD_OFFSET + i, image[i]);
        i = i + 1;
    }
    assert(mem@ =~= loaded(old(mem)@, image@));
    Ok(())
}

} // verus!
