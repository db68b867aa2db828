//! The userland loader's image: reading its header and laying out the memory
//! that the image is loaded into.
//!
//! Nothing is mapped here. The plan says what has to be mapped where, and the
//! caller maps it.
use crate::arch::memory::PAGE_SIZE;
use crate::endian::{le_u32, le_u64, read_u32, read_u64};
use vstd::prelude::*;

verus! {

/// The number that every loader image starts with.
pub const MAGIC: u32 = 0x71FF1013;

/// The header size and the architecture tag that an amd64 image carries.
pub const INFO: u32 = 0x21C;

/// The address that the loader's region ends at.
pub const LOAD_MAX: u64 = 0x8000_0000_0000;

/// Size in bytes of the region reserved for the loader.
pub const MAX_SIZE: u64 = 0x2_0000;

/// First address of the region reserved for the loader.
pub const LOAD_BASE: u64 = 0x7FFF_FFFE_0000;

/// Size in bytes of a loader header.
pub const HEADER_SIZE: usize = 32;

/// The header at the start of a loader image.
#[derive(PartialEq, Eq, Structural, Clone, Copy, Debug)]
pub struct LoaderHeader {
    /// Identifies a loader image.
    pub magic: u32,
    /// Header size and architecture tag.
    pub info: u32,
    /// Size in bytes of the code, the header's page included.
    pub codesize: u32,
    /// Size in bytes of the image in memory.
    pub memsize: u32,
    /// Offset in the image of the space for the init path.
    pub init_path_ofs: u32,
    /// Size in bytes of the space for the init path.
    pub init_path_len: u32,
    /// Address at which execution starts.
    pub entrypoint: u64,
}

/// How a part of the image file is mapped.
#[derive(PartialEq, Eq, Structural, Clone, Copy, Debug)]
pub enum MemoryMapMode {
    /// Read-only and executable.
    Execute,
    /// Writable; a page is copied when it is first written.
    COW,
}

/// A part of the image file and where in memory it goes.
#[derive(PartialEq, Eq, Structural, Clone, Copy, Debug)]
pub struct Segment {
    /// Address that the part is mapped at.
    pub addr: u64,
    /// Offset of the part in the file.
    pub file_offset: u64,
    /// Size in bytes of the part.
    pub size: u64,
    /// How the part is mapped.
    pub mode: MemoryMapMode,
}

/// Where everything of a loader image goes.
#[derive(PartialEq, Eq, Structural, Clone, Copy, Debug)]
pub struct LoadPlan {
    /// The page that holds the header.
    pub first_page: Segment,
    /// The code after the first page.
    pub code: Segment,
    /// The initialised data.
    pub data: Segment,
    /// Address at which the zeroed memory after the file starts.
    pub bss_start: u64,
    /// Number of pages of zeroed memory.
    pub bss_pages: u64,
    /// Address that the init command line is written at.
    pub args_addr: u64,
    /// Number of bytes of the init command line that are written.
    pub args_len: u64,
    /// Address at which execution starts.
    pub entrypoint: u64,
}

/// Why a loader image cannot be loaded.
#[derive(PartialEq, Eq, Structural, Clone, Copy, Debug)]
pub enum LoaderError {
    /// The file is larger than the region reserved for the loader.
    TooLarge,
    /// The magic number or the info word is not what it has to be.
    InvalidHeader,
    /// The code is larger than the file or smaller than a page, or the image
    /// in memory is smaller than the file.
    InconsistentSizes,
    /// The code does not end on a page boundary.
    CodeNotPageAligned,
    /// The file size is not a multiple of the page size.
    FileNotPageAligned,
    /// The space for the init path starts inside the code or ends outside the
    /// image.
    ArgumentsOutOfRange,
    /// The entry point lies outside the loader's range.
    EntryOutOfRange,
}

/// The header that the first bytes of an image spell out.
pub open spec fn header_of(bytes: Seq<u8>) -> LoaderHeader {
    LoaderHeader {
        magic: le_u32(bytes, 0),
        info: le_u32(bytes, 4),
        codesize: le_u32(bytes, 8),
        memsize: le_u32(bytes, 12),
        init_path_ofs: le_u32(bytes, 16),
        init_path_len: le_u32(bytes, 20),
        entrypoint: le_u64(bytes, 24),
    }
}

/// What stands in the way of loading an image with header `header` from a
/// file of `ondisk_size` bytes, if anything. The first thing found wrong is
/// the one reported.
pub open spec fn fault_of(header: LoaderHeader, ondisk_size: u64) -> Option<LoaderError> {
    if ondisk_size > MAX_SIZE {
        Some(LoaderError::TooLarge)
    } else if header.magic != MAGIC || header.info != INFO {
        Some(LoaderError::InvalidHeader)
    } else if header.codesize > ondisk_size || header.memsize < ondisk_size || header.codesize
        < PAGE_SIZE {
        Some(LoaderError::InconsistentSizes)
    } else if header.codesize as int % PAGE_SIZE as int != 0 {
        Some(LoaderError::CodeNotPageAligned)
    } else if ondisk_size as int % PAGE_SIZE as int != 0 {
        Some(LoaderError::FileNotPageAligned)
    } else if header.init_path_ofs < header.codesize || header.init_path_ofs
        + header.init_path_len >= header.memsize {
        Some(LoaderError::ArgumentsOutOfRange)
    } else if header.entrypoint < LOAD_BASE || header.entrypoint >= LOAD_BASE + LOAD_MAX {
        Some(LoaderError::EntryOutOfRange)
    } else {
        None
    }
}

/// Where everything of a sound image goes: the file is mapped from the base
/// of the loader's region on, part after part, the zeroed memory follows it,
/// and the command line goes where the header says.
pub open spec fn layout_of(header: LoaderHeader, ondisk_size: u64, cmdline_len: usize) -> LoadPlan {
    LoadPlan {
        first_page: Segment {
            addr: LOAD_BASE,
            file_offset: 0,
            size: PAGE_SIZE as u64,
            mode: MemoryMapMode::Execute,
        },
        code: Segment {
            addr: (LOAD_BASE + PAGE_SIZE) as u64,
            file_offset: PAGE_SIZE as u64,
            size: (header.codesize - PAGE_SIZE) as u64,
            mode: MemoryMapMode::Execute,
        },
        data: Segment {
            addr: (LOAD_BASE + header.codesize) as u64,
            file_offset: header.codesize as u64,
            size: (ondisk_size - header.codesize) as u64,
            mode: MemoryMapMode::COW,
        },
        bss_start: (LOAD_BASE + ondisk_size) as u64,
        bss_pages: ((header.memsize - ondisk_size + PAGE_SIZE) / PAGE_SIZE as int) as u64,
        args_addr: (LOAD_BASE + header.init_path_ofs) as u64,
        args_len: if cmdline_len < header.init_path_len {
            cmdline_len as u64
        } else {
            header.init_path_len as u64
        },
        entrypoint: header.entrypoint,
    }
}

impl LoaderHeader {
    /// Reads the header from the first bytes of an image. Fewer bytes than a
    /// header has give none.
    pub fn parse(bytes: &[u8]) -> (header: Option<LoaderHeader>)
        ensures
            header == if bytes@.len() >= HEADER_SIZE {
                Some(header_of(bytes@))
            } else {
                None
            },
    {
        if bytes.len() < HEADER_SIZE {
            return None;
        }
        Some(
            LoaderHeader {
                magic: read_u32(bytes, 0),
                info: read_u32(bytes, 4),
                codesize: read_u32(bytes, 8),
                memsize: read_u32(bytes, 12),
                init_path_ofs: read_u32(bytes, 16),
                init_path_len: read_u32(bytes, 20),
                entrypoint: read_u64(bytes, 24),
            },
        )
    }
}

impl LoaderError {
    /// Whether the kernel cannot go on after this error. The others are
    /// reported, and the loader is not started.
    pub open spec fn is_fatal_spec(self) -> bool {
        self == LoaderError::InconsistentSizes || self == LoaderError::CodeNotPageAligned || self
            == LoaderError::FileNotPageAligned
    }

    /// Tells whether the kernel cannot go on after this error.
    pub fn is_fatal(&self) -> (fatal: bool)
        ensures
            fatal == self.is_fatal_spec(),
    {
        matches!(
            self,
            LoaderError::InconsistentSizes | LoaderError::CodeNotPageAligned
                | LoaderError::FileNotPageAligned
        )
    }
}

/// Tells whether a loader file of `ondisk_size` bytes fits in the region
/// reserved for the loader. Nothing of a larger file is mapped.
pub fn fits_reserved_region(ondisk_size: u64) -> (fits: bool)
    ensures
        fits == (ondisk_size <= MAX_SIZE),
{
    ondisk_size <= MAX_SIZE
}

/// Lays out the memory for the loader image with header `header`, whose file
/// has `ondisk_size` bytes, and for a command line of `cmdline_len` bytes.
///
/// An image with anything wrong is refused, and the first thing wrong is
/// reported.
pub fn plan_load(header: &LoaderHeader, ondisk_size: u64, cmdline_len: usize) -> (plan: Result<
    LoadPlan,
    LoaderError,
>)
    ensures
        plan == (match fault_of(*header, ondisk_size) {
            Some(e) => Err::<LoadPlan, LoaderError>(e),
            None => Ok(layout_of(*header, ondisk_size, cmdline_len)),
        }),
{
    let page = PAGE_SIZE as u64;
    if ondisk_size > MAX_SIZE {
        return Err(LoaderError::TooLarge);
    }
    if header.magic != MAGIC || header.info != INFO {
        return Err(LoaderError::InvalidHeader);
    }
    let codesize = header.codesize as u64;
    let memsize = header.memsize as u64;
    if codesize > ondisk_size || memsize < ondisk_size || codesize < page {
        return Err(LoaderError::InconsistentSizes);
    }
    let datasize = ondisk_size - codesize;
    let bss_size = memsize - ondisk_size;
    if codesize % page != 0 {
        return Err(LoaderError::CodeNotPageAligned);
    }
    if ondisk_size % page != 0 {
        return Err(LoaderError::FileNotPageAligned);
    }
    let path_ofs = header.init_path_ofs as u64;
    let path_len = header.init_path_len as u64;
    if path_ofs < codesize || path_ofs + path_len >= memsize {
        return Err(LoaderError::ArgumentsOutOfRange);
    }
    if header.entrypoint < LOAD_BASE || header.entrypoint >= LOAD_BASE + LOAD_MAX {
        return Err(LoaderError::EntryOutOfRange);
    }
    let args_len = if (cmdline_len as u64) < path_len {
        cmdline_len as u64
    } else {
        path_len
    };
    Ok(
        LoadPlan {
            first_page: Segment {
                addr: LOAD_BASE,
                file_offset: 0,
                size: page,
                mode: MemoryMapMode::Execute,
            },
            code: Segment {
                addr: LOAD_BASE + page,
                file_offset: page,
                size: codesize - page,
                mode: MemoryMapMode::Execute,
            },
            data: Segment {
                addr: LOAD_BASE + codesize,
                file_offset: codesize,
                size: datasize,
                mode: MemoryMapMode::COW,
            },
            bss_start: LOAD_BASE + ondisk_size,
            bss_pages: (bss_size + page) / page,
            args_addr: LOAD_BASE + path_ofs,
            args_len,
            entrypoint: header.entrypoint,
        },
    )
}

/// In a plan, the parts of the file follow one another without a gap from
/// the base of the loader's region on, each at the address that is as far
/// from the base as the part is from the start of the file; the zeroed memory
/// starts where the file ends, inside the reserved region; and the command
/// line lies after the code.
pub proof fn lemma_plan_is_contiguous(header: LoaderHeader, ondisk_size: u64, cmdline_len: usize)
    requires
        fault_of(header, ondisk_size) is None,
    ensures
        ({
            let plan = layout_of(header, ondisk_size, cmdline_len);
            &&& plan.first_page.addr == LOAD_BASE
            &&& plan.code.addr == plan.first_page.addr + plan.first_page.size
            &&& plan.data.addr == plan.code.addr + plan.code.size
            &&& plan.bss_start == plan.data.addr + plan.data.size
            &&& plan.first_page.size + plan.code.size + plan.data.size == ondisk_size
            &&& plan.first_page.addr - LOAD_BASE == plan.first_page.file_offset
            &&& plan.code.addr - LOAD_BASE == plan.code.file_offset
            &&& plan.data.addr - LOAD_BASE == plan.data.file_offset
            &&& plan.bss_start <= LOAD_MAX
            &&& plan.bss_start as int % PAGE_SIZE as int == 0
            &&& plan.bss_pages * PAGE_SIZE > header.memsize - ondisk_size
            &&& plan.args_addr >= plan.data.addr
            &&& plan.args_len <= header.init_path_len
            &&& plan.args_len <= cmdline_len
            &&& plan.args_addr + plan.args_len < LOAD_BASE + header.memsize
        }),
{
}

/// The base of the loader's region lies the region's size below its end.
pub proof fn lemma_load_base()
    ensures
        LOAD_BASE == LOAD_MAX - MAX_SIZE,
        LOAD_BASE as int % PAGE_SIZE as int == 0,
        INFO == (3 * 4 + 2 * 8) + 2 * 0x100,
{
}

} // verus!
