//! Attaching to the host: the identity check on the host's executable and
//! the record of where its image is mapped.
use vstd::prelude::*;
use vstd::slice::slice_subrange;

verus! {

/// Reason code: the library is being loaded into the process.
pub const DLL_PROCESS_ATTACH: u32 = 1;

/// Reason code: the library is being unloaded from the process.
pub const DLL_PROCESS_DETACH: u32 = 0;

/// Reason code: a thread of the process starts.
pub const DLL_THREAD_ATTACH: u32 = 2;

/// Reason code: a thread of the process ends.
pub const DLL_THREAD_DETACH: u32 = 3;

/// SHA-256 of the code section of the supported 64-bit host build.
pub const UDK_KNOWN_HASH_X86_64: [u8; 32] = [
    0xF0, 0x2F, 0x13, 0x1E, 0xF2, 0x0E, 0xA3, 0xCE, 0xD1, 0xCE, 0x93, 0x14, 0x53, 0xDE, 0x37, 0xB9,
    0x51, 0x1B, 0x92, 0xD0, 0xBA, 0x7C, 0x07, 0x27, 0x5B, 0xA0, 0xAE, 0xFB, 0x7D, 0xFB, 0xE3, 0xE3,
];

/// SHA-256 of the code section of the supported 32-bit host build.
pub const UDK_KNOWN_HASH_X86: [u8; 32] = [
    0x70, 0xC2, 0x91, 0x73, 0xE0, 0x0F, 0x2F, 0xCA, 0x5E, 0xBB, 0x92, 0x76, 0x00, 0x43, 0xDF, 0x70,
    0xE0, 0xC0, 0x16, 0xFA, 0xB2, 0x80, 0xF8, 0x20, 0x88, 0x31, 0xD9, 0x99, 0xFE, 0xF0, 0xFF, 0x33,
];

/// The processor architecture that the host was built for.
#[derive(Clone, Copy, Debug, PartialEq, Eq, Structural)]
pub enum Arch {
    X86,
    X86_64,
}

/// The digest that the code section of a supported host has.
pub open spec fn known_hash(arch: Arch) -> Seq<u8> {
    match arch {
        Arch::X86 => UDK_KNOWN_HASH_X86@,
        Arch::X86_64 => UDK_KNOWN_HASH_X86_64@,
    }
}

/// The SHA-256 digest of a byte string.
pub uninterp spec fn sha256_of(data: Seq<u8>) -> Seq<u8>;

/// The file range (start, end) of the section with the given name in a
/// portable executable file, if the file's headers are sound and name such
/// a section.
pub uninterp spec fn pe_section(image: Seq<u8>, name: Seq<char>) -> Option<(u32, u32)>;

/// Calls `sha2`'s SHA-256 on the whole of `data`, in one pass. The digest is
/// a function of the bytes alone and has 32 bytes.
#[verifier::external_body]
fn sha256(data: &[u8]) -> (digest: [u8; 32])
    ensures
        digest@ == sha256_of(data@),
{
    <sha2::Sha256 as sha2::Digest>::digest(data).into()
}

/// Asks `pelite` for the headers of the executable file held in `image`
/// (`PeFile::from_bytes`), for the section header with the given name
/// (`SectionHeaders::by_name`) and for that section's range in the file
/// (`SectionHeader::file_range`). `pelite` reads the headers in place and
/// wants them on their natural boundaries, so the bytes are first copied
/// into storage of `words` 64-bit words, seen as bytes through
/// `dataview::bytes_mut`; files whose headers say that they lie off their
/// boundaries are left out. What comes back is then fixed by the bytes and
/// the name alone.
#[verifier::external_body]
fn section_range(image: &[u8], name: &str, words: usize) -> (r: Option<(u32, u32)>)
    requires
        headers_on_boundaries(image@),
        words * 8 >= image@.len(),
    ensures
        r == pe_section(image@, name@),
{
    let mut storage = vec![0u64; words];
    let aligned = &mut dataview::bytes_mut(storage.as_mut_slice())[..image.len()];
    aligned.copy_from_slice(image);
    let file = pelite::PeFile::from_bytes(&*aligned).ok()?;
    let range = file.section_headers().by_name(name)?.file_range();
    Some((range.start, range.end))
}

/// The 16-bit number that two bytes of a file hold, low byte first.
pub open spec fn le16(bytes: Seq<u8>, at: int) -> int {
    bytes[at] + bytes[at + 1] * 0x100
}

/// The 32-bit number that four bytes of a file hold, low byte first.
pub open spec fn le32(bytes: Seq<u8>, at: int) -> int {
    bytes[at] + bytes[at + 1] * 0x100 + bytes[at + 2] * 0x1_0000 + bytes[at + 3] * 0x100_0000
}

/// Whether the headers of an executable file lie where they can be read in
/// place: the offset of the new headers, held at 0x3C, is a multiple of
/// eight, and the size of the optional header, held 20 bytes into the new
/// headers, is a multiple of four, so that the section table behind it
/// starts on a boundary of four. A file too short to hold the fields is not
/// held to them.
pub open spec fn headers_on_boundaries(image: Seq<u8>) -> bool {
    image.len() >= 0x40 ==> (le32(image, 0x3C) % 8 == 0 && (le32(image, 0x3C) + 24 <= image.len()
        ==> le16(image, le32(image, 0x3C) + 20) % 4 == 0))
}

fn read_le16(image: &[u8], at: usize) -> (r: u16)
    requires
        at + 2 <= image@.len(),
    ensures
        r == le16(image@, at as int),
{
    let low: u16 = image[at] as u16;
    let high: u16 = image[at + 1] as u16;
    low + high * 0x100
}

fn read_le32(image: &[u8], at: usize) -> (r: u32)
    requires
        at + 4 <= image@.len(),
    ensures
        r == le32(image@, at as int),
{
    let b0: u32 = image[at] as u32;
    let b1: u32 = image[at + 1] as u32;
    let b2: u32 = image[at + 2] as u32;
    let b3: u32 = image[at + 3] as u32;
    b0 + b1 * 0x100 + b2 * 0x1_0000 + b3 * 0x100_0000
}

/// Tests whether the headers of an executable file lie on their boundaries.
pub fn headers_lie_on_boundaries(image: &[u8]) -> (r: bool)
    ensures
        r == headers_on_boundaries(image@),
{
    if image.len() < 0x40 {
        return true;
    }
    let e_lfanew: u32 = read_le32(image, 0x3C);
    if e_lfanew % 8 != 0 {
        return false;
    }
    if e_lfanew as usize > image.len() - 24 {
        return true;
    }
    let size_of_optional_header: u16 = read_le16(image, e_lfanew as usize + 20);
    size_of_optional_header % 4 == 0
}

/// Why attaching to the host failed. Each of these ends the initialisation:
/// no image is recorded and no hook can be installed afterwards.
#[derive(Clone, Copy, Debug, PartialEq, Eq, Structural)]
pub enum AttachError {
    /// The loader did not give the host's main module.
    ModuleNotFound,
    /// Base address and size of the module do not fit the address space.
    ImageOutOfRange,
    /// The executable file has no readable code section.
    NoCodeSection,
    /// The code section's range lies outside the executable file.
    SectionOutOfBounds,
    /// The digest of the code section is not that of a supported host.
    UnknownHash,
    /// An image was recorded before.
    AlreadyAttached,
}

/// Whether a file range lies inside a file of `len` bytes.
pub open spec fn range_in_file(range: (u32, u32), len: nat) -> bool {
    range.0 <= range.1 && range.1 <= len
}

/// The verdict on a host's executable file, given the range of its code
/// section and the digest of the bytes in that range.
pub open spec fn identity_verdict(
    arch: Arch,
    len: nat,
    section: Option<(u32, u32)>,
    digest: Seq<u8>,
) -> Result<(), AttachError> {
    match section {
        None => Err(AttachError::NoCodeSection),
        Some(range) => if !range_in_file(range, len) {
            Err(AttachError::SectionOutOfBounds)
        } else if digest == known_hash(arch) {
            Ok(())
        } else {
            Err(AttachError::UnknownHash)
        },
    }
}

/// The bytes of a file that a range names.
pub open spec fn section_bytes(image: Seq<u8>, range: (u32, u32)) -> Seq<u8> {
    image.subrange(range.0 as int, range.1 as int)
}

/// Compares a digest with the known digest of the given architecture, byte
/// for byte and over the whole length.
pub fn hash_is_known(arch: Arch, digest: &[u8]) -> (r: bool)
    ensures
        r == (digest@ == known_hash(arch)),
{
    let known: [u8; 32] = match arch {
        Arch::X86 => UDK_KNOWN_HASH_X86,
        Arch::X86_64 => UDK_KNOWN_HASH_X86_64,
    };
    assert(known@ == known_hash(arch));
    if digest.len() != 32 {
        return false;
    }
    let mut i: usize = 0;
    while i < 32
        invariant
            i <= 32,
            digest@.len() == 32,
            known@ == known_hash(arch),
            forall|k: int| 0 <= k < i ==> digest@[k] == known@[k],
        decreases 32 - i,
    {
        if digest[i] != known[i] {
            return false;
        }
        i += 1;
    }
    assert(digest@ =~= known@);
    true
}

/// Takes the digest of the bytes that a range of the file names.
pub fn section_digest(image: &[u8], range: (u32, u32)) -> (digest: [u8; 32])
    requires
        range_in_file(range, image@.len()),
    ensures
        digest@ == sha256_of(section_bytes(image@, range)),
{
    let code = slice_subrange(image, range.0 as usize, range.1 as usize);
    sha256(code)
}

/// The digest of the bytes of a code section; of no section, no digest.
pub open spec fn code_digest(image: Seq<u8>, section: Option<(u32, u32)>) -> Seq<u8> {
    match section {
        Some(range) => sha256_of(section_bytes(image, range)),
        None => Seq::empty(),
    }
}

/// Checks the executable file of the host against the known digest, given
/// the range of its code section: the digest is taken over exactly the bytes
/// of that range.
pub fn check_code_section(arch: Arch, image: &[u8], section: Option<(u32, u32)>) -> (r: Result<
    (),
    AttachError,
>)
    ensures
        r == identity_verdict(arch, image@.len(), section, code_digest(image@, section)),
{
    match section {
        None => Err(AttachError::NoCodeSection),
        Some(range) => {
            if range.0 > range.1 || range.1 as usize > image.len() {
                return Err(AttachError::SectionOutOfBounds);
            }
            let digest = section_digest(image, range);
            if hash_is_known(arch, digest.as_slice()) {
                Ok(())
            } else {
                Err(AttachError::UnknownHash)
            }
        },
    }
}

/// The name of the section that holds the host's code.
pub open spec fn code_section_name() -> Seq<char> {
    ".text"@
}

/// The verdict on the executable file of a host. A file whose headers lie
/// off their boundaries has no readable code section; of any other file the
/// section named `.text` is looked up, and the digest of its bytes decides.
pub open spec fn host_identity(arch: Arch, image: Seq<u8>) -> Result<(), AttachError> {
    if !headers_on_boundaries(image) {
        Err(AttachError::NoCodeSection)
    } else {
        identity_verdict(
            arch,
            image.len(),
            pe_section(image, code_section_name()),
            code_digest(image, pe_section(image, code_section_name())),
        )
    }
}

/// Whether the executable file `image` is that of a supported host: its
/// headers name a code section inside the file whose digest is the known
/// one.
pub open spec fn is_supported_host(arch: Arch, image: Seq<u8>) -> bool {
    host_identity(arch, image) is Ok
}

/// Verifies the identity of the host from its executable file: the file is
/// accepted exactly if it is that of a supported host, and each refusal
/// says why.
pub fn verify_identity(arch: Arch, image: &[u8]) -> (r: Result<(), AttachError>)
    ensures
        r == host_identity(arch, image@),
        r is Ok <==> is_supported_host(arch, image@),
{
    if !headers_lie_on_boundaries(image) {
        return Err(AttachError::NoCodeSection);
    }
    let words: usize = image.len() / 8 + 1;
    let section = section_range(image, ".text", words);
    check_code_section(arch, image, section)
}

/// Where the host's main module is mapped: base address and size in bytes.
#[derive(Clone, Copy, Debug, PartialEq, Eq, Structural)]
pub struct HostImage {
    /// Address of the first byte of the image.
    pub base: usize,
    /// Number of bytes that the image spans.
    pub size: usize,
}

impl HostImage {
    /// The image ends inside the address space.
    pub open spec fn wf(self) -> bool {
        self.base + self.size <= usize::MAX
    }

    /// The absolute address of the `span` bytes at `offset` from the base,
    /// if all of them lie inside the image.
    pub open spec fn spec_resolve(&self, offset: usize, span: usize) -> Option<usize> {
        if offset + span <= self.size {
            Some((self.base + offset) as usize)
        } else {
            None
        }
    }

    /// Whether an address lies inside the image.
    pub open spec fn spec_contains(&self, address: usize) -> bool {
        self.base <= address < self.base + self.size
    }

    /// Describes an image of `size` bytes at `base`, unless it would reach
    /// past the end of the address space.
    pub fn new(base: usize, size: usize) -> (r: Option<HostImage>)
        ensures
            r == (if base + size <= usize::MAX {
                Some(HostImage { base, size })
            } else {
                None
            }),
            r matches Some(image) ==> image.wf(),
    {
        if size > usize::MAX - base {
            None
        } else {
            Some(HostImage { base, size })
        }
    }

    /// Address of the first byte behind the image.
    pub fn end(&self) -> (r: usize)
        requires
            self.wf(),
        ensures
            r == self.base + self.size,
    {
        self.base + self.size
    }

    /// Whether an address lies inside the image.
    #[verifier::when_used_as_spec(spec_contains)]
    pub fn contains(&self, address: usize) -> (r: bool)
        requires
            self.wf(),
        ensures
            r == self.spec_contains(address),
    {
        self.base <= address && address - self.base < self.size
    }

    /// Turns an offset from the base into an absolute address, if the
    /// `span` bytes that start there lie inside the image.
    #[verifier::when_used_as_spec(spec_resolve)]
    pub fn resolve(&self, offset: usize, span: usize) -> (r: Option<usize>)
        requires
            self.wf(),
        ensures
            r == self.spec_resolve(offset, span),
            r matches Some(address) ==> address == self.base + offset && (span > 0
                ==> self.spec_contains(address)),
    {
        if offset > self.size || span > self.size - offset {
            None
        } else {
            Some(self.base + offset)
        }
    }
}

/// What the loader reports about the host's main module.
#[derive(Clone, Copy, Debug, PartialEq, Eq, Structural)]
pub struct ModuleInfo {
    pub base: usize,
    pub size_of_image: u32,
}

/// The record of the host's image. It is empty until the host has been
/// verified, is filled exactly once, and is only read afterwards.
#[derive(Clone, Copy, Debug, PartialEq, Eq, Structural)]
pub struct ImageCache {
    image: Option<HostImage>,
}

impl View for ImageCache {
    type V = Option<HostImage>;

    /// The recorded image, if there is one.
    closed spec fn view(&self) -> Option<HostImage> {
        self.image
    }
}

impl ImageCache {
    /// A recorded image is well formed.
    pub open spec fn wf(self) -> bool {
        self@ matches Some(image) ==> image.wf()
    }

    /// Whether an image has been recorded.
    pub open spec fn is_attached(self) -> bool {
        self@ is Some
    }

    /// The empty record.
    pub fn new() -> (r: ImageCache)
        ensures
            r@ is None,
    {
        ImageCache { image: None }
    }

    /// The recorded image, if there is one.
    pub fn image(&self) -> (r: Option<HostImage>)
        ensures
            r == self@,
    {
        self.image
    }
}

/// The record after an attempt to attach: filled on success, as before on
/// an error.
pub open spec fn record_after(
    record: Option<HostImage>,
    outcome: Result<HostImage, AttachError>,
) -> Option<HostImage> {
    match outcome {
        Ok(image) => Some(image),
        Err(_) => record,
    }
}

/// What attaching does, given what the loader reported and the verdict on
/// the host's identity: the error, or the image to record. The checks come
/// in this order: module, address range, identity, earlier record.
pub open spec fn attach_outcome(
    record: Option<HostImage>,
    module: Option<ModuleInfo>,
    identity: Result<(), AttachError>,
) -> Result<HostImage, AttachError> {
    match module {
        None => Err(AttachError::ModuleNotFound),
        Some(info) => if info.base + info.size_of_image > usize::MAX {
            Err(AttachError::ImageOutOfRange)
        } else {
            match identity {
                Err(e) => Err(e),
                Ok(_) => if record is Some {
                    Err(AttachError::AlreadyAttached)
                } else {
                    Ok(HostImage { base: info.base, size: info.size_of_image as usize })
                },
            }
        },
    }
}

/// Records the host's image once its identity has been judged. On any error
/// the record stays as it was.
pub fn record_image(
    cache: &mut ImageCache,
    module: Option<ModuleInfo>,
    identity: Result<(), AttachError>,
) -> (r: Result<(), AttachError>)
    requires
        old(cache).wf(),
    ensures
        final(cache).wf(),
        final(cache)@ == record_after(old(cache)@, attach_outcome(old(cache)@, module, identity)),
        (match attach_outcome(old(cache)@, module, identity) {
            Ok(image) => r is Ok,
            Err(e) => r == Err::<(), AttachError>(e),
        }),
{
    let info = match module {
        None => {
            return Err(AttachError::ModuleNotFound);
        },
        Some(info) => info,
    };
    let image = match HostImage::new(info.base, info.size_of_image as usize) {
        None => {
            return Err(AttachError::ImageOutOfRange);
        },
        Some(image) => image,
    };
    if let Err(e) = identity {
        return Err(e);
    }
    if cache.image.is_some() {
        return Err(AttachError::AlreadyAttached);
    }
    cache.image = Some(image);
    Ok(())
}

/// Runs when the library is loaded into the host: verifies the host's
/// executable file and, if it is that of a supported build, records where
/// the host's image is mapped. `module` is what the loader reported about
/// the main module and `exe` holds the bytes of the executable file.
///
/// Nothing is recorded unless the host is a supported one, so an unknown
/// host leaves no image to install hooks into.
pub fn dll_attach(
    cache: &mut ImageCache,
    arch: Arch,
    module: Option<ModuleInfo>,
    exe: &[u8],
) -> (r: Result<(), AttachError>)
    requires
        old(cache).wf(),
    ensures
        final(cache).wf(),
        final(cache)@ == record_after(
            old(cache)@,
            attach_outcome(old(cache)@, module, host_identity(arch, exe@)),
        ),
        (match attach_outcome(old(cache)@, module, host_identity(arch, exe@)) {
            Ok(image) => r is Ok,
            Err(e) => r == Err::<(), AttachError>(e),
        }),
        r is Ok ==> is_supported_host(arch, exe@),
{
    let identity = verify_identity(arch, exe);
    record_image(cache, module, identity)
}

/// Base address of the host's image. The image must have been recorded:
/// asking before that is a programming error.
pub fn get_udk_ptr(cache: &ImageCache) -> (r: usize)
    requires
        cache.is_attached(),
    ensures
        cache@ matches Some(image) && r == image.base,
{
    match cache.image {
        Some(image) => image.base,
        None => 0,
    }
}

/// What the loader's notification asks of the library.
#[derive(Clone, Copy, Debug, PartialEq, Eq, Structural)]
pub struct DllMainReply {
    /// The value to hand back to the loader: 1 to go on, 0 to refuse.
    pub result: i32,
    /// Whether the host has to be verified and attached to now.
    pub attach: bool,
}

/// Answers a notification of the loader. Only the loading of the library
/// into the process calls for work; an unknown reason is refused.
pub fn dll_main(hinst_dll: usize, fdw_reason: u32, lpv_reserved: usize) -> (r: DllMainReply)
    ensures
        r.attach == (fdw_reason == DLL_PROCESS_ATTACH),
        r.result == (if fdw_reason == DLL_PROCESS_ATTACH || fdw_reason == DLL_PROCESS_DETACH
            || fdw_reason == DLL_THREAD_ATTACH || fdw_reason == DLL_THREAD_DETACH {
            1i32
        } else {
            0i32
        }),
{
    if fdw_reason == DLL_PROCESS_ATTACH {
        DllMainReply { result: 1, attach: true }
    } else if fdw_reason == DLL_PROCESS_DETACH || fdw_reason == DLL_THREAD_ATTACH || fdw_reason
        == DLL_THREAD_DETACH {
        DllMainReply { result: 1, attach: false }
    } else {
        DllMainReply { result: 0, attach: false }
    }
}

} // verus!
