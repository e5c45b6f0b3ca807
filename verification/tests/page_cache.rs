use libxdc::elf_executable_page_cache::{
    default_mapped_base, ElfExecutablePageCache, ElfImage, PageCacheError,
};
use libxdc::program_header::{
    find_file_base, page_data_from_slice, ProgramHeader, PAGE_SIZE, PF_X, PT_LOAD,
};

fn header(p_type: u32, p_flags: u32, offset: u64, vaddr: u64, filesz: u64, memsz: u64) -> ProgramHeader {
    ProgramHeader {
        p_type,
        p_flags,
        p_offset: offset,
        p_vaddr: vaddr,
        p_paddr: vaddr,
        p_filesz: filesz,
        p_memsz: memsz,
        p_align: 0x1000,
    }
}

fn pattern(len: usize) -> Vec<u8> {
    let mut v: Vec<u8> = Vec::with_capacity(len);
    for i in 0..len {
        v.push(((i * 7 + 3) % 251) as u8);
    }
    v
}

fn push_u16(v: &mut Vec<u8>, x: u16) {
    v.extend_from_slice(&x.to_le_bytes());
}

fn push_u32(v: &mut Vec<u8>, x: u32) {
    v.extend_from_slice(&x.to_le_bytes());
}

fn push_u64(v: &mut Vec<u8>, x: u64) {
    v.extend_from_slice(&x.to_le_bytes());
}

/// A little-endian ELF file of the given class with the given program headers
/// and, from offset 0x1000 on, the given contents.
fn elf_file(class64: bool, headers: &[ProgramHeader], contents: &[u8]) -> Vec<u8> {
    let mut v: Vec<u8> = vec![0x7f, b'E', b'L', b'F', if class64 { 2 } else { 1 }, 1, 1, 0];
    v.extend_from_slice(&[0u8; 8]);
    push_u16(&mut v, 2);
    push_u16(&mut v, if class64 { 0x3e } else { 3 });
    push_u32(&mut v, 1);
    if class64 {
        push_u64(&mut v, 0x1000);
        push_u64(&mut v, 64);
        push_u64(&mut v, 0);
        push_u32(&mut v, 0);
        push_u16(&mut v, 64);
        push_u16(&mut v, 56);
        push_u16(&mut v, headers.len() as u16);
        push_u16(&mut v, 64);
    } else {
        push_u32(&mut v, 0x1000);
        push_u32(&mut v, 52);
        push_u32(&mut v, 0);
        push_u32(&mut v, 0);
        push_u16(&mut v, 52);
        push_u16(&mut v, 32);
        push_u16(&mut v, headers.len() as u16);
        push_u16(&mut v, 40);
    }
    push_u16(&mut v, 0);
    push_u16(&mut v, 0);
    for h in headers {
        if class64 {
            push_u32(&mut v, h.p_type);
            push_u32(&mut v, h.p_flags);
            push_u64(&mut v, h.p_offset);
            push_u64(&mut v, h.p_vaddr);
            push_u64(&mut v, h.p_paddr);
            push_u64(&mut v, h.p_filesz);
            push_u64(&mut v, h.p_memsz);
            push_u64(&mut v, h.p_align);
        } else {
            push_u32(&mut v, h.p_type);
            push_u32(&mut v, h.p_offset as u32);
            push_u32(&mut v, h.p_vaddr as u32);
            push_u32(&mut v, h.p_paddr as u32);
            push_u32(&mut v, h.p_filesz as u32);
            push_u32(&mut v, h.p_memsz as u32);
            push_u32(&mut v, h.p_flags);
            push_u32(&mut v, h.p_align as u32);
        }
    }
    v.resize(0x1000, 0);
    v.extend_from_slice(contents);
    v
}

#[test]
fn it_works() {
    let result = 2 + 2;
    assert_eq!(result, 4);
}

#[test]
fn constants_have_their_values() {
    assert_eq!(PAGE_SIZE, 4096);
    assert_eq!(PT_LOAD, 1);
    assert_eq!(PF_X, 1);
    assert_eq!(default_mapped_base(true), 0x0000_5555_5555_4000);
    assert_eq!(default_mapped_base(false), 0x5655_5000);
}

#[test]
fn page_data_from_slice_copies_the_page() {
    let bytes = pattern(0x1000);
    let page = page_data_from_slice(&bytes);
    assert_eq!(&page[..], &bytes[..]);
}

#[test]
fn header_predicates() {
    let h = header(PT_LOAD, 5, 0x10, 0x2000, 0x30, 0x2fff);
    assert!(h.is_load());
    assert!(h.is_executable());
    assert_eq!(h.file_size(), 0x30);
    assert_eq!(h.vm_size(), 0x2fff);
    let g = header(2, 6, u64::MAX - 4, u64::MAX - 9, 100, 100);
    assert!(!g.is_load());
    assert!(!g.is_executable());
    assert_eq!(g.file_size(), 4);
    assert_eq!(g.vm_size(), 9);
}

#[test]
fn file_base_is_the_first_load_segment() {
    let hs = vec![
        header(6, 4, 0, 0x40, 0, 0),
        header(PT_LOAD, 4, 0, 0x400000, 0, 0x1000),
        header(PT_LOAD, 5, 0, 0x401000, 0, 0x1000),
    ];
    assert_eq!(find_file_base(&hs), Some(0x400000));
    assert_eq!(find_file_base(&vec![header(6, 4, 0, 0x40, 0, 0)]), None);
    assert_eq!(find_file_base(&Vec::new()), None);
}

#[test]
fn one_page_segment_relocated() {
    let data = pattern(0x1000);
    let hs = vec![header(PT_LOAD, PF_X | 4, 0, 0x1000, 0x1000, 0x1000)];
    let mut cache = ElfExecutablePageCache::from_program_headers(&data, &hs, 0x555000).ok().unwrap();
    assert_eq!(cache.mapped_base(), 0x555000);
    assert_eq!(cache.page_count(), 1);
    let page = cache.get_page_data(0x555000).unwrap();
    assert_eq!(&page[..], &data[..]);
    assert!(cache.get_page_data(0x1000).is_none());
    assert!(cache.get_page_data(0x556000).is_none());
}

#[test]
fn one_page_segment_from_an_elf_file() {
    let contents = pattern(0x1000);
    let hs = [header(PT_LOAD, PF_X | 4, 0x1000, 0x1000, 0x1000, 0x1000)];
    let file = elf_file(true, &hs, &contents);
    let mut cache = ElfExecutablePageCache::executable_page_data_for_elf(&file, Some(0x555000)).ok().unwrap();
    assert_eq!(cache.page_count(), 1);
    assert_eq!(&cache.get_page_data(0x555000).unwrap()[..], &contents[..]);
    assert!(cache.get_page_data(0x555001).is_none());
}

#[test]
fn default_base_is_taken_without_override() {
    let contents = pattern(0x2000);
    let hs = [
        header(PT_LOAD, 4, 0, 0x400000, 0x100, 0x100),
        header(PT_LOAD, PF_X | 4, 0x1000, 0x401000, 0x2000, 0x2000),
    ];
    let file = elf_file(true, &hs, &contents);
    let mut cache = ElfExecutablePageCache::executable_page_data_for_elf(&file, None).ok().unwrap();
    assert_eq!(cache.mapped_base(), 0x0000_5555_5555_4000);
    assert_eq!(cache.page_count(), 2);
    assert_eq!(&cache.get_page_data(0x0000_5555_5555_5000).unwrap()[..], &contents[..0x1000]);
    assert_eq!(&cache.get_page_data(0x0000_5555_5555_6000).unwrap()[..], &contents[0x1000..]);
    assert!(cache.get_page_data(0x0000_5555_5555_4000).is_none());
}

#[test]
fn unrecognised_bytes_are_a_format_error() {
    let r = ElfExecutablePageCache::executable_page_data_for_elf(&[1u8, 2, 3], None);
    assert_eq!(r.err(), Some(PageCacheError::FormatError));
    let junk = pattern(0x200);
    let r = ElfExecutablePageCache::executable_page_data_for_elf(&junk, None);
    assert_eq!(r.err(), Some(PageCacheError::FormatError));
    let mut truncated = elf_file(true, &[header(PT_LOAD, 5, 0x1000, 0x1000, 0x1000, 0x1000)], &[]);
    truncated.truncate(40);
    let r = ElfExecutablePageCache::executable_page_data_for_elf(&truncated, None);
    assert_eq!(r.err(), Some(PageCacheError::FormatError));
}

#[test]
fn a_32_bit_image_is_a_format_error() {
    let contents = pattern(0x1000);
    let hs = [header(PT_LOAD, PF_X | 4, 0x1000, 0x1000, 0x1000, 0x1000)];
    let file = elf_file(false, &hs, &contents);
    let r = ElfExecutablePageCache::executable_page_data_for_elf(&file, Some(0x555000));
    assert_eq!(r.err(), Some(PageCacheError::FormatError));
    let image = ElfImage { is_64: false, program_headers: hs.to_vec() };
    let r = ElfExecutablePageCache::from_parsed(&file, Some(image), Some(0x555000));
    assert_eq!(r.err(), Some(PageCacheError::FormatError));
    let r = ElfExecutablePageCache::from_parsed(&file, None, Some(0x555000));
    assert_eq!(r.err(), Some(PageCacheError::FormatError));
}

#[test]
fn an_image_without_load_segments_has_no_base() {
    let file = elf_file(true, &[header(4, 4, 0x1000, 0x1000, 0x10, 0x10)], &pattern(0x10));
    let r = ElfExecutablePageCache::executable_page_data_for_elf(&file, None);
    assert_eq!(r.err(), Some(PageCacheError::NoLoadSegmentsError));
    let r = ElfExecutablePageCache::from_program_headers(&[], &Vec::new(), 0);
    assert_eq!(r.err(), Some(PageCacheError::NoLoadSegmentsError));
}

#[test]
fn malformed_segments_are_a_format_error() {
    let data = pattern(0x1000);
    // file range beyond the image
    let hs = vec![header(PT_LOAD, 5, 0x800, 0x1000, 0x1000, 0x1000)];
    let r = ElfExecutablePageCache::from_program_headers(&data, &hs, 0x1000);
    assert_eq!(r.err(), Some(PageCacheError::FormatError));
    // more bytes in the file than in memory
    let hs = vec![header(PT_LOAD, 5, 0, 0x1000, 0x1000, 0x800)];
    let r = ElfExecutablePageCache::from_program_headers(&data, &hs, 0x1000);
    assert_eq!(r.err(), Some(PageCacheError::FormatError));
    // relocated key above the address space
    let hs = vec![header(PT_LOAD, 5, 0, 0x1000, 0x1000, 0x2000)];
    let r = ElfExecutablePageCache::from_program_headers(&data, &hs, u64::MAX - 0xfff);
    assert_eq!(r.err(), Some(PageCacheError::FormatError));
    let cache = ElfExecutablePageCache::from_program_headers(&data, &hs, u64::MAX - 0x1fff).ok().unwrap();
    assert_eq!(cache.page_count(), 2);
    // relocated key below zero
    let hs = vec![
        header(PT_LOAD, 4, 0, 0x5000, 0, 0x1000),
        header(PT_LOAD, 5, 0, 0x1000, 0x1000, 0x1000),
    ];
    let r = ElfExecutablePageCache::from_program_headers(&data, &hs, 0x2000);
    assert_eq!(r.err(), Some(PageCacheError::FormatError));
    // the same segment is fine where its key fits
    let mut cache = ElfExecutablePageCache::from_program_headers(&data, &hs, 0x4000).ok().unwrap();
    assert_eq!(&cache.get_page_data(0).unwrap()[..], &data[..]);
    // a malformed segment that is not executable is not read
    let hs = vec![header(PT_LOAD, 4, 0x800, 0x1000, 0x1000, 0x800)];
    let cache = ElfExecutablePageCache::from_program_headers(&data, &hs, 0x1000).ok().unwrap();
    assert_eq!(cache.page_count(), 0);
}

#[test]
fn only_loadable_executable_segments_are_mapped() {
    let data = pattern(0x3000);
    let hs = vec![
        header(PT_LOAD, 4, 0, 0x10000, 0x1000, 0x1000),
        header(PT_LOAD, PF_X | 4, 0x1000, 0x11000, 0x1000, 0x1000),
        header(2, PF_X | 4, 0x2000, 0x12000, 0x1000, 0x1000),
        header(PT_LOAD, 6, 0x2000, 0x13000, 0x1000, 0x1000),
    ];
    let mut cache = ElfExecutablePageCache::from_program_headers(&data, &hs, 0x7000_0000).ok().unwrap();
    assert_eq!(cache.page_count(), 1);
    assert!(cache.get_page_data(0x7000_0000).is_none());
    assert_eq!(&cache.get_page_data(0x7000_1000).unwrap()[..], &data[0x1000..0x2000]);
    assert!(cache.get_page_data(0x7000_2000).is_none());
    assert!(cache.get_page_data(0x7000_3000).is_none());
}

#[test]
fn memory_tail_is_zero_and_partial_page_is_dropped() {
    let data = pattern(0x1800);
    // 0x1800 file bytes, 0x3abc bytes of memory: three whole pages
    let hs = vec![header(PT_LOAD, PF_X, 0, 0x20000, 0x1800, 0x3abc)];
    let mut cache = ElfExecutablePageCache::from_program_headers(&data, &hs, 0x20000).ok().unwrap();
    assert_eq!(cache.page_count(), 3);
    assert_eq!(&cache.get_page_data(0x20000).unwrap()[..], &data[..0x1000]);
    let second = cache.get_page_data(0x21000).unwrap();
    assert_eq!(&second[..0x800], &data[0x1000..]);
    assert!(second[0x800..].iter().all(|b| *b == 0));
    assert!(cache.get_page_data(0x22000).unwrap().iter().all(|b| *b == 0));
    assert!(cache.get_page_data(0x23000).is_none());
    // a segment shorter than a page maps nothing
    let hs = vec![header(PT_LOAD, PF_X, 0, 0x20000, 0x800, 0xfff)];
    let cache = ElfExecutablePageCache::from_program_headers(&data, &hs, 0x20000).ok().unwrap();
    assert_eq!(cache.page_count(), 0);
}

#[test]
fn unaligned_segment_keeps_its_offset() {
    let data = pattern(0x2000);
    let hs = vec![header(PT_LOAD, PF_X, 0x10, 0x400010, 0x1ff0, 0x1ff0)];
    let mut cache = ElfExecutablePageCache::from_program_headers(&data, &hs, 0x400010).ok().unwrap();
    assert_eq!(cache.page_count(), 1);
    assert_eq!(&cache.get_page_data(0x400010).unwrap()[..], &data[0x10..0x1010]);
    assert!(cache.get_page_data(0x400000).is_none());
}

#[test]
fn changing_the_base_shifts_every_key() {
    let data = pattern(0x3000);
    let hs = vec![
        header(PT_LOAD, 4, 0, 0x400000, 0x100, 0x100),
        header(PT_LOAD, PF_X, 0, 0x401000, 0x2000, 0x2000),
        header(PT_LOAD, PF_X, 0x2000, 0x408000, 0x1000, 0x1000),
    ];
    let b1: u64 = 0x10_0000;
    let b2: u64 = 0x7fff_0000_0000;
    let mut c1 = ElfExecutablePageCache::from_program_headers(&data, &hs, b1).ok().unwrap();
    let mut c2 = ElfExecutablePageCache::from_program_headers(&data, &hs, b2).ok().unwrap();
    assert_eq!(c1.page_count(), 3);
    assert_eq!(c2.page_count(), 3);
    for off in [0x1000u64, 0x2000, 0x8000] {
        let p1 = *c1.get_page_data(b1 + off).unwrap();
        let p2 = *c2.get_page_data(b2 + off).unwrap();
        assert_eq!(&p1[..], &p2[..]);
        assert!(c2.get_page_data(b1 + off).is_none());
    }
    assert_eq!(&c1.get_page_data(b1 + 0x8000).unwrap()[..], &data[0x2000..]);
}

#[test]
fn a_later_segment_replaces_an_earlier_page() {
    let data = pattern(0x2000);
    let hs = vec![
        header(PT_LOAD, PF_X, 0, 0x1000, 0x1000, 0x1000),
        header(PT_LOAD, PF_X, 0x1000, 0x1000, 0x1000, 0x1000),
    ];
    let mut cache = ElfExecutablePageCache::from_program_headers(&data, &hs, 0x1000).ok().unwrap();
    assert_eq!(cache.page_count(), 1);
    assert_eq!(&cache.get_page_data(0x1000).unwrap()[..], &data[0x1000..]);
}

#[test]
fn a_lent_page_keeps_what_is_written_to_it() {
    let data = pattern(0x2000);
    let hs = vec![header(PT_LOAD, PF_X, 0, 0x1000, 0x2000, 0x2000)];
    let mut cache = ElfExecutablePageCache::from_program_headers(&data, &hs, 0x1000).ok().unwrap();
    {
        let page = cache.get_page_data(0x1000).unwrap();
        page[5] = 0xcc;
    }
    assert_eq!(cache.page_count(), 2);
    let page = cache.get_page_data(0x1000).unwrap();
    assert_eq!(page[5], 0xcc);
    assert_eq!(page[6], data[6]);
    assert_eq!(&cache.get_page_data(0x2000).unwrap()[..], &data[0x1000..]);
    assert!(cache.get_page_data(0x1005).is_none());
}
