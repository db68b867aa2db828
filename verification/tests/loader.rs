use kernel::endian::{read_u32, read_u64, u32_bytes};
use kernel::loader::{
    fits_reserved_region, plan_load, LoadPlan, LoaderError, LoaderHeader, MemoryMapMode, Segment,
    HEADER_SIZE, INFO, LOAD_BASE, LOAD_MAX, MAGIC, MAX_SIZE,
};

/// A header that nothing is wrong with, for a file of 0x5000 bytes.
fn sound() -> LoaderHeader {
    LoaderHeader {
        magic: MAGIC,
        info: INFO,
        codesize: 0x3000,
        memsize: 0x8000,
        init_path_ofs: 0x4000,
        init_path_len: 0x100,
        entrypoint: LOAD_BASE + 0x1000,
    }
}

#[test]
fn constants() {
    assert_eq!(MAGIC, 0x71FF1013);
    assert_eq!(INFO, (3 * 4 + 2 * 8) | (2 << 8));
    assert_eq!(LOAD_MAX, 1 << 47);
    assert_eq!(MAX_SIZE, 2 * 64 * 1024);
    assert_eq!(LOAD_BASE, LOAD_MAX - MAX_SIZE);
    assert_eq!(HEADER_SIZE, 32);
}

#[test]
fn little_endian_numbers() {
    let bytes = [0x13, 0x10, 0xFF, 0x71, 1, 2, 3, 4, 5];
    assert_eq!(read_u32(&bytes, 0), 0x71FF1013);
    assert_eq!(read_u32(&bytes, 1), 0x0171FF10);
    assert_eq!(read_u32(&bytes, 5), 0x05040302);
    assert_eq!(read_u64(&bytes, 0), 0x04030201_71FF1013);
    assert_eq!(read_u64(&bytes, 1), 0x05040302_0171FF10);
    assert_eq!(u32_bytes(0x71FF1013), [0x13, 0x10, 0xFF, 0x71]);
    assert_eq!(u32_bytes(0), [0, 0, 0, 0]);
    assert_eq!(u32_bytes(u32::MAX), [0xFF, 0xFF, 0xFF, 0xFF]);
    assert_eq!(read_u32(&u32_bytes(0xDEAD_BEEF), 0), 0xDEAD_BEEF);
}

#[test]
fn header_is_read_from_the_first_bytes() {
    let mut bytes = Vec::new();
    bytes.extend_from_slice(&0x71FF1013u32.to_le_bytes());
    bytes.extend_from_slice(&0x21Cu32.to_le_bytes());
    bytes.extend_from_slice(&0x3000u32.to_le_bytes());
    bytes.extend_from_slice(&0x8000u32.to_le_bytes());
    bytes.extend_from_slice(&0x4000u32.to_le_bytes());
    bytes.extend_from_slice(&0x100u32.to_le_bytes());
    bytes.extend_from_slice(&(LOAD_BASE + 0x1000).to_le_bytes());
    assert_eq!(bytes.len(), 32);
    assert_eq!(LoaderHeader::parse(&bytes), Some(sound()));
    // What follows the header is not looked at.
    bytes.extend_from_slice(&[0xFF; 16]);
    assert_eq!(LoaderHeader::parse(&bytes), Some(sound()));
    assert_eq!(LoaderHeader::parse(&bytes[..31]), None);
    assert_eq!(LoaderHeader::parse(&[]), None);
    let ones = LoaderHeader::parse(&[0xFF; 32]).unwrap();
    assert_eq!(ones.magic, u32::MAX);
    assert_eq!(ones.init_path_len, u32::MAX);
    assert_eq!(ones.entrypoint, u64::MAX);
}

#[test]
fn sound_image_is_laid_out() {
    let plan = plan_load(&sound(), 0x5000, 21).unwrap();
    assert_eq!(
        plan,
        LoadPlan {
            first_page: Segment {
                addr: LOAD_BASE,
                file_offset: 0,
                size: 0x1000,
                mode: MemoryMapMode::Execute,
            },
            code: Segment {
                addr: LOAD_BASE + 0x1000,
                file_offset: 0x1000,
                size: 0x2000,
                mode: MemoryMapMode::Execute,
            },
            data: Segment {
                addr: LOAD_BASE + 0x3000,
                file_offset: 0x3000,
                size: 0x2000,
                mode: MemoryMapMode::COW,
            },
            bss_start: LOAD_BASE + 0x5000,
            bss_pages: 4,
            args_addr: LOAD_BASE + 0x4000,
            args_len: 21,
            entrypoint: LOAD_BASE + 0x1000,
        }
    );
}

#[test]
fn command_line_is_cut_to_the_space_for_it() {
    assert_eq!(plan_load(&sound(), 0x5000, 0).unwrap().args_len, 0);
    assert_eq!(plan_load(&sound(), 0x5000, 0xFF).unwrap().args_len, 0xFF);
    assert_eq!(plan_load(&sound(), 0x5000, 0x100).unwrap().args_len, 0x100);
    assert_eq!(plan_load(&sound(), 0x5000, 0x101).unwrap().args_len, 0x100);
    assert_eq!(plan_load(&sound(), 0x5000, usize::MAX).unwrap().args_len, 0x100);
}

#[test]
fn zeroed_memory_is_counted_in_pages() {
    let mut header = sound();
    // No zeroed bytes still take one page.
    header.memsize = 0x5000;
    header.init_path_ofs = 0x3000;
    assert_eq!(plan_load(&header, 0x5000, 0).unwrap().bss_pages, 1);
    header.memsize = 0x5001;
    assert_eq!(plan_load(&header, 0x5000, 0).unwrap().bss_pages, 1);
    header.memsize = 0x5FFF;
    assert_eq!(plan_load(&header, 0x5000, 0).unwrap().bss_pages, 1);
    header.memsize = 0x6000;
    assert_eq!(plan_load(&header, 0x5000, 0).unwrap().bss_pages, 2);
    header.memsize = u32::MAX;
    assert_eq!(plan_load(&header, 0x5000, 0).unwrap().bss_pages, 0xFFFFB);
}

#[test]
fn smallest_and_largest_images() {
    let mut header = sound();
    header.codesize = 0x1000;
    header.memsize = 0x1002;
    header.init_path_ofs = 0x1000;
    header.init_path_len = 1;
    let plan = plan_load(&header, 0x1000, 5).unwrap();
    assert_eq!(plan.code.size, 0);
    assert_eq!(plan.data.size, 0);
    assert_eq!(plan.bss_start, LOAD_BASE + 0x1000);
    assert_eq!(plan.args_len, 1);
    header.codesize = MAX_SIZE as u32;
    header.memsize = MAX_SIZE as u32 + 0x1000;
    header.init_path_ofs = MAX_SIZE as u32;
    let plan = plan_load(&header, MAX_SIZE, 5).unwrap();
    assert_eq!(plan.code.size, MAX_SIZE - 0x1000);
    assert_eq!(plan.data.addr, LOAD_MAX);
    assert_eq!(plan.bss_start, LOAD_MAX);
    assert!(fits_reserved_region(MAX_SIZE));
    assert!(!fits_reserved_region(MAX_SIZE + 1));
}

#[test]
fn file_larger_than_the_region_is_refused_first() {
    assert_eq!(plan_load(&sound(), MAX_SIZE + 1, 0), Err(LoaderError::TooLarge));
    let mut header = sound();
    header.magic = 0;
    assert_eq!(plan_load(&header, MAX_SIZE + 0x1000, 0), Err(LoaderError::TooLarge));
    assert_eq!(plan_load(&header, u64::MAX, 0), Err(LoaderError::TooLarge));
}

#[test]
fn wrong_magic_or_info_is_refused() {
    let mut header = sound();
    header.magic = MAGIC + 1;
    assert_eq!(plan_load(&header, 0x5000, 0), Err(LoaderError::InvalidHeader));
    let mut header = sound();
    header.info = 0x11C;
    assert_eq!(plan_load(&header, 0x5000, 0), Err(LoaderError::InvalidHeader));
    // The header is looked at before the sizes.
    header.codesize = 7;
    assert_eq!(plan_load(&header, 0x5001, 0), Err(LoaderError::InvalidHeader));
}

#[test]
fn sizes_that_contradict_each_other_are_refused() {
    let mut header = sound();
    header.codesize = 0x6000;
    assert_eq!(plan_load(&header, 0x5000, 0), Err(LoaderError::InconsistentSizes));
    let mut header = sound();
    header.memsize = 0x4FFF;
    assert_eq!(plan_load(&header, 0x5000, 0), Err(LoaderError::InconsistentSizes));
    let mut header = sound();
    header.codesize = 0xFFF;
    assert_eq!(plan_load(&header, 0x5000, 0), Err(LoaderError::InconsistentSizes));
    header.codesize = 0;
    assert_eq!(plan_load(&header, 0, 0), Err(LoaderError::InconsistentSizes));
}

#[test]
fn sizes_off_the_page_boundary_are_refused() {
    let mut header = sound();
    header.codesize = 0x3008;
    assert_eq!(plan_load(&header, 0x5000, 0), Err(LoaderError::CodeNotPageAligned));
    // The code is looked at before the file.
    assert_eq!(plan_load(&header, 0x5010, 0), Err(LoaderError::CodeNotPageAligned));
    assert_eq!(plan_load(&sound(), 0x5010, 0), Err(LoaderError::FileNotPageAligned));
    assert_eq!(plan_load(&sound(), 0x4FFF, 0), Err(LoaderError::FileNotPageAligned));
}

#[test]
fn space_for_the_init_path_must_lie_after_the_code_and_inside_the_image() {
    let mut header = sound();
    header.init_path_ofs = 0x2FFF;
    assert_eq!(plan_load(&header, 0x5000, 0), Err(LoaderError::ArgumentsOutOfRange));
    header.init_path_ofs = 0x3000;
    assert!(plan_load(&header, 0x5000, 0).is_ok());
    header.init_path_ofs = 0x7F00;
    assert_eq!(plan_load(&header, 0x5000, 0), Err(LoaderError::ArgumentsOutOfRange));
    header.init_path_ofs = 0x7EFF;
    assert!(plan_load(&header, 0x5000, 0).is_ok());
    header.init_path_ofs = u32::MAX;
    header.init_path_len = u32::MAX;
    header.memsize = u32::MAX;
    assert_eq!(plan_load(&header, 0x5000, 0), Err(LoaderError::ArgumentsOutOfRange));
}

#[test]
fn entry_point_must_lie_in_the_loaders_range() {
    let mut header = sound();
    header.entrypoint = LOAD_BASE - 1;
    assert_eq!(plan_load(&header, 0x5000, 0), Err(LoaderError::EntryOutOfRange));
    header.entrypoint = LOAD_BASE;
    assert_eq!(plan_load(&header, 0x5000, 0).unwrap().entrypoint, LOAD_BASE);
    header.entrypoint = LOAD_BASE + LOAD_MAX - 1;
    assert!(plan_load(&header, 0x5000, 0).is_ok());
    header.entrypoint = LOAD_BASE + LOAD_MAX;
    assert_eq!(plan_load(&header, 0x5000, 0), Err(LoaderError::EntryOutOfRange));
    header.entrypoint = 0;
    assert_eq!(plan_load(&header, 0x5000, 0), Err(LoaderError::EntryOutOfRange));
}

#[test]
fn fatal_errors() {
    assert!(LoaderError::InconsistentSizes.is_fatal());
    assert!(LoaderError::CodeNotPageAligned.is_fatal());
    assert!(LoaderError::FileNotPageAligned.is_fatal());
    assert!(!LoaderError::TooLarge.is_fatal());
    assert!(!LoaderError::InvalidHeader.is_fatal());
    assert!(!LoaderError::ArgumentsOutOfRange.is_fatal());
    assert!(!LoaderError::EntryOutOfRange.is_fatal());
}
