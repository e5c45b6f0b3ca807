//! The segment table of an executable image, as plain values.

use vstd::prelude::*;

verus! {

/// Size in bytes of one page.
pub const PAGE_SIZE: usize = 0x1000;

/// Segment type of a loadable segment.
pub const PT_LOAD: u32 = 1;

/// Flag bit of an executable segment.
pub const PF_X: u32 = 1;

/// One entry of an image's segment table.
#[derive(Clone, Copy, Debug, PartialEq, Eq, Structural)]
pub struct ProgramHeader {
    pub p_type: u32,
    pub p_flags: u32,
    pub p_offset: u64,
    pub p_vaddr: u64,
    pub p_paddr: u64,
    pub p_filesz: u64,
    pub p_memsz: u64,
    pub p_align: u64,
}

impl ProgramHeader {
    /// The segment is mapped into memory at load time.
    pub open spec fn loadable(self) -> bool {
        self.p_type == PT_LOAD
    }

    /// The segment carries the executable flag.
    pub open spec fn executable(self) -> bool {
        self.p_flags & PF_X != 0
    }

    /// The segment contributes pages: it is loadable and executable.
    pub open spec fn maps_pages(self) -> bool {
        self.loadable() && self.executable()
    }

    /// End of the file-backed bytes, saturating at the top of the address space.
    pub open spec fn file_end(self) -> int {
        if self.p_offset + self.p_filesz > u64::MAX {
            u64::MAX as int
        } else {
            self.p_offset + self.p_filesz
        }
    }

    /// Number of file-backed bytes.
    pub open spec fn file_len(self) -> int {
        self.file_end() - self.p_offset
    }

    /// Number of bytes the segment occupies in memory, cut at the top of the
    /// address space.
    pub open spec fn vm_len(self) -> int {
        if self.p_vaddr + self.p_memsz > u64::MAX {
            u64::MAX - self.p_vaddr
        } else {
            self.p_memsz as int
        }
    }

    /// Number of whole pages in the segment's memory range; a trailing partial
    /// page is not counted.
    pub open spec fn page_count(self) -> int {
        self.vm_len() / 4096
    }

    /// Byte `k` of the segment's memory image: the file byte where the file
    /// backs it, zero beyond.
    pub open spec fn byte_at(self, data: Seq<u8>, k: int) -> u8 {
        if k < self.file_len() {
            data[self.p_offset + k]
        } else {
            0u8
        }
    }

    /// Page `i` of the segment's memory image.
    pub open spec fn page(self, data: Seq<u8>, i: int) -> Seq<u8> {
        Seq::new(4096, |j: int| self.byte_at(data, i * 4096 + j))
    }

    /// The file-backed bytes lie inside `data` and are no longer than the
    /// memory range.
    pub open spec fn fits(self, data: Seq<u8>) -> bool {
        self.file_end() <= data.len() && self.file_len() <= self.vm_len()
    }

    /// Key of page `i` after relocation from `file_base` to `runtime_base`.
    pub open spec fn relocated_key(self, i: int, file_base: u64, runtime_base: u64) -> int {
        self.p_vaddr + i * 4096 - file_base + runtime_base
    }

    /// Every page of the segment relocates to a 64-bit address.
    pub open spec fn keys_in_range(self, file_base: u64, runtime_base: u64) -> bool {
        self.page_count() > 0 ==> 0 <= self.relocated_key(0, file_base, runtime_base)
            && self.relocated_key(self.page_count() - 1, file_base, runtime_base) <= u64::MAX
    }

    /// The segment can be entered into a page map built from `data`.
    pub open spec fn well_formed(self, data: Seq<u8>, file_base: u64, runtime_base: u64) -> bool {
        self.maps_pages() ==> self.fits(data) && self.keys_in_range(file_base, runtime_base)
    }

    /// A segment table entry with the given fields.
    pub fn from_fields(
        p_type: u32,
        p_flags: u32,
        p_offset: u64,
        p_vaddr: u64,
        p_paddr: u64,
        p_filesz: u64,
        p_memsz: u64,
        p_align: u64,
    ) -> (h: ProgramHeader)
        ensures
            h == (ProgramHeader {
                p_type,
                p_flags,
                p_offset,
                p_vaddr,
                p_paddr,
                p_filesz,
                p_memsz,
                p_align,
            }),
    {
        ProgramHeader { p_type, p_flags, p_offset, p_vaddr, p_paddr, p_filesz, p_memsz, p_align }
    }

    /// Whether the segment is loadable.
    pub fn is_load(&self) -> (r: bool)
        ensures
            r == self.loadable(),
    {
        self.p_type == PT_LOAD
    }

    /// Whether the segment is executable.
    pub fn is_executable(&self) -> (r: bool)
        ensures
            r == self.executable(),
    {
        self.p_flags & PF_X != 0
    }

    /// Length of the file-backed range.
    pub fn file_size(&self) -> (r: u64)
        ensures
            r == self.file_len(),
    {
        if self.p_filesz > u64::MAX - self.p_offset {
            u64::MAX - self.p_offset
        } else {
            self.p_filesz
        }
    }

    /// Length of the memory range.
    pub fn vm_size(&self) -> (r: u64)
        ensures
            r == self.vm_len(),
    {
        if self.p_memsz > u64::MAX - self.p_vaddr {
            u64::MAX - self.p_vaddr
        } else {
            self.p_memsz
        }
    }

    /// Decides `fits`.
    pub fn fits_in(&self, data: &[u8]) -> (r: bool)
        ensures
            r == self.fits(data@),
    {
        let flen: u64 = self.file_size();
        let end: u64 = self.p_offset + flen;
        (end as u128) <= (data.len() as u128) && flen <= self.vm_size()
    }

    /// Decides `keys_in_range`.
    pub fn keys_fit(&self, file_base: u64, runtime_base: u64) -> (r: bool)
        ensures
            r == self.keys_in_range(file_base, runtime_base),
    {
        let count: u64 = self.vm_size() / 4096;
        if count == 0 {
            return true;
        }
        let first: i128 = self.p_vaddr as i128 - file_base as i128 + runtime_base as i128;
        let last: i128 = first + ((count - 1) as i128) * 4096;
        0 <= first && last <= u64::MAX as i128
    }

    /// Builds page `i` of the segment from the image's bytes.
    pub fn page_at(&self, data: &[u8], i: u64) -> (page: [u8; 0x1000])
        requires
            self.fits(data@),
            i < self.page_count(),
        ensures
            page@ == self.page(data@, i as int),
    {
        let flen: u64 = self.file_size();
        let start: u64 = i * 4096;
        let mut chunk: Vec<u8> = Vec::with_capacity(PAGE_SIZE);
        let mut j: u64 = 0;
        while j < 4096
            invariant
                j <= 4096,
                flen == self.file_len(),
                self.fits(data@),
                start == i * 4096,
                start + 4096 <= self.vm_len(),
                chunk@.len() == j,
                forall|k: int| 0 <= k < j ==> chunk@[k] == self.byte_at(data@, start + k),
            decreases 4096 - j,
        {
            let k: u64 = start + j;
            if k < flen {
                chunk.push(data[(self.p_offset + k) as usize]);
            } else {
                chunk.push(0u8);
            }
            j = j + 1;
        }
        let page = page_data_from_slice(chunk.as_slice());
        assert(page@ =~= self.page(data@, i as int));
        page
    }
}

/// Copies a slice of exactly one page into a page buffer.
pub fn page_data_from_slice(slice: &[u8]) -> (a: [u8; 0x1000])
    requires
        slice@.len() == 0x1000,
    ensures
        a@ == slice@,
{
    let mut a: [u8; 0x1000] = [0u8; 0x1000];
    let mut j: usize = 0;
    while j < PAGE_SIZE
        invariant
            j <= 0x1000,
            slice@.len() == 0x1000,
            forall|k: int| 0 <= k < j ==> a@[k] == slice@[k],
        decreases 0x1000 - j,
    {
        a[j] = slice[j];
        j = j + 1;
    }
    assert(a@ =~= slice@);
    a
}

/// Virtual address of the first loadable segment at or after index `k`.
pub open spec fn first_load_from(headers: Seq<ProgramHeader>, k: int) -> Option<u64>
    decreases headers.len() - k,
{
    if k < 0 || k >= headers.len() {
        None
    } else if headers[k].loadable() {
        Some(headers[k].p_vaddr)
    } else {
        first_load_from(headers, k + 1)
    }
}

/// The image's own base: the virtual address of its first loadable segment.
pub open spec fn file_base(headers: Seq<ProgramHeader>) -> Option<u64> {
    first_load_from(headers, 0)
}

/// Finds the image's own base address.
pub fn find_file_base(headers: &Vec<ProgramHeader>) -> (r: Option<u64>)
    ensures
        r == file_base(headers@),
{
    let mut i: usize = 0;
    while i < headers.len()
        invariant
            i <= headers.len(),
            first_load_from(headers@, 0) == first_load_from(headers@, i as int),
        decreases headers.len() - i,
    {
        if headers[i].is_load() {
            return Some(headers[i].p_vaddr);
        }
        i = i + 1;
    }
    None
}

} // verus!
