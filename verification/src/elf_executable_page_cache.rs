//! The page cache: executable pages of an image, keyed by their runtime address.

use crate::program_header::{file_base, find_file_base, ProgramHeader};
use std::collections::hash_map::Entry;
use std::collections::HashMap;
use vstd::prelude::*;
use vstd::std_specs::hash::*;

verus! {

/// Why no page cache could be built from an image.
#[derive(Clone, Copy, Debug, PartialEq, Eq, Structural)]
pub enum PageCacheError {
    /// The image is not a recognised 64-bit object, or one of its executable
    /// segments does not fit the image or the address space.
    FormatError,
    /// The image has no loadable segment, so it has no base address.
    NoLoadSegmentsError,
}

/// Runtime base assumed when the caller names none.
pub open spec fn default_base(is_64: bool) -> u64 {
    if is_64 {
        0x0000_5555_5555_4000u64
    } else {
        0x5655_5000u64
    }
}

/// `m` with the first `k` pages of segment `h` entered, lowest page first.
pub open spec fn with_pages(
    m: Map<u64, Seq<u8>>,
    data: Seq<u8>,
    h: ProgramHeader,
    k: int,
    file_base: u64,
    runtime_base: u64,
) -> Map<u64, Seq<u8>>
    decreases k,
{
    if k <= 0 {
        m
    } else {
        with_pages(m, data, h, k - 1, file_base, runtime_base).insert(
            h.relocated_key(k - 1, file_base, runtime_base) as u64,
            h.page(data, k - 1),
        )
    }
}

/// The page map after the first `n` segments: each loadable executable
/// segment enters all its whole pages, a later entry replacing an earlier one
/// under the same key.
pub open spec fn pages_upto(
    data: Seq<u8>,
    headers: Seq<ProgramHeader>,
    n: int,
    file_base: u64,
    runtime_base: u64,
) -> Map<u64, Seq<u8>>
    decreases n,
{
    if n <= 0 {
        Map::empty()
    } else {
        let before = pages_upto(data, headers, n - 1, file_base, runtime_base);
        if headers[n - 1].maps_pages() {
            with_pages(
                before,
                data,
                headers[n - 1],
                headers[n - 1].page_count(),
                file_base,
                runtime_base,
            )
        } else {
            before
        }
    }
}

/// Every segment of the table can be entered into the page map.
pub open spec fn all_well_formed(
    data: Seq<u8>,
    headers: Seq<ProgramHeader>,
    file_base: u64,
    runtime_base: u64,
) -> bool {
    forall|s: int|
        0 <= s < headers.len() ==> (#[trigger] headers[s]).well_formed(
            data,
            file_base,
            runtime_base,
        )
}

/// What building a cache from a segment table yields.
pub open spec fn build_pages(data: Seq<u8>, headers: Seq<ProgramHeader>, runtime_base: u64) -> Result<
    Map<u64, Seq<u8>>,
    PageCacheError,
> {
    match file_base(headers) {
        None => Err(PageCacheError::NoLoadSegmentsError),
        Some(fb) => if all_well_formed(data, headers, fb, runtime_base) {
            Ok(pages_upto(data, headers, headers.len() as int, fb, runtime_base))
        } else {
            Err(PageCacheError::FormatError)
        },
    }
}

/// A parsed object file, as far as the page cache reads it.
pub ghost enum ObjectModel {
    /// The bytes could not be parsed.
    Malformed,
    /// The bytes are an object of another format.
    Other,
    /// The bytes are an ELF image.
    Elf { is_64: bool, program_headers: Seq<ProgramHeader> },
}

/// What building a cache from a parsed object yields.
pub open spec fn cache_outcome(data: Seq<u8>, object: ObjectModel, mapped_base: Option<u64>) -> Result<
    Map<u64, Seq<u8>>,
    PageCacheError,
> {
    match object {
        ObjectModel::Elf { is_64, program_headers } => if is_64 {
            build_pages(
                data,
                program_headers,
                match mapped_base {
                    Some(b) => b,
                    None => default_base(is_64),
                },
            )
        } else {
            Err(PageCacheError::FormatError)
        },
        _ => Err(PageCacheError::FormatError),
    }
}

/// The parts of an ELF image that the page cache reads.
pub struct ElfImage {
    pub is_64: bool,
    pub program_headers: Vec<ProgramHeader>,
}

/// The model of an optional image: `None` stands for an object of another format.
pub open spec fn image_model(image: Option<ElfImage>) -> ObjectModel {
    match image {
        Some(img) => ObjectModel::Elf { is_64: img.is_64, program_headers: img.program_headers@ },
        None => ObjectModel::Other,
    }
}

/// The error of `goblin::Object::parse`, carried through unread.
#[verifier::external_type_specification]
#[verifier::external_body]
pub struct ExGoblinError(goblin::error::Error);

/// The object that `goblin::Object::parse` reads from `data`.
pub uninterp spec fn object_model(data: Seq<u8>) -> ObjectModel;

/// Calls `goblin::Object::parse` and copies out the bitness and the program
/// headers of an ELF object. Taken on trust, not proved: parsing is a function
/// of the bytes alone, so the outcome is the one that `object_model` names for
/// them, an error standing for `Malformed` and any object but ELF for `Other`.
#[verifier::external_body]
fn parse_object(data: &[u8]) -> (r: Result<Option<ElfImage>, goblin::error::Error>)
    ensures
        object_model(data@) == match r {
            Ok(image) => image_model(image),
            Err(_) => ObjectModel::Malformed,
        },
{
    match goblin::Object::parse(data)? {
        goblin::Object::Elf(e) => Ok(Some(ElfImage {
            is_64: e.is_64,
            program_headers: e.program_headers.iter().map(|h| ProgramHeader::from_fields(
                h.p_type, h.p_flags, h.p_offset, h.p_vaddr, h.p_paddr, h.p_filesz, h.p_memsz, h.p_align,
            )).collect(),
        })),
        _ => Ok(None),
    }
}

/// Executable pages of an image, keyed by runtime address.
pub struct ElfExecutablePageCache {
    page_data: HashMap<u64, [u8; 0x1000]>,
    mapped_base: u64,
}

/// The contents of a stored page map.
pub open spec fn page_view(m: Map<u64, [u8; 0x1000]>) -> Map<u64, Seq<u8>> {
    Map::new(|k: u64| m.contains_key(k), |k: u64| m[k]@)
}

/// The model of a construction's outcome.
pub open spec fn outcome_view(r: Result<ElfExecutablePageCache, PageCacheError>) -> Result<
    Map<u64, Seq<u8>>,
    PageCacheError,
> {
    match r {
        Ok(c) => Ok(c@),
        Err(e) => Err(e),
    }
}

impl View for ElfExecutablePageCache {
    type V = Map<u64, Seq<u8>>;

    closed spec fn view(&self) -> Map<u64, Seq<u8>> {
        page_view(self.page_data@)
    }
}

/// Runtime base assumed when the caller names none.
pub fn default_mapped_base(is_64: bool) -> (r: u64)
    ensures
        r == default_base(is_64),
{
    if is_64 {
        0x0000_5555_5555_4000u64
    } else {
        0x5655_5000u64
    }
}

impl ElfExecutablePageCache {
    /// The runtime base the cache was relocated to.
    pub closed spec fn base(&self) -> u64 {
        self.mapped_base
    }

    /// The runtime base the cache was relocated to.
    pub fn mapped_base(&self) -> (r: u64)
        ensures
            r == self.base(),
    {
        self.mapped_base
    }

    /// Number of pages in the cache.
    pub fn page_count(&self) -> (r: usize)
        ensures
            r == self@.len(),
            self@.dom().finite(),
    {
        broadcast use group_hash_axioms;

        assert(self@.dom() =~= self.page_data@.dom());
        self.page_data.len()
    }

    /// Builds the cache from a segment table and the image's bytes, relocated
    /// to `mapped_base`.
    pub fn from_program_headers(data: &[u8], headers: &Vec<ProgramHeader>, mapped_base: u64) -> (r:
        Result<ElfExecutablePageCache, PageCacheError>)
        ensures
            outcome_view(r) == build_pages(data@, headers@, mapped_base),
            r matches Ok(c) ==> c.base() == mapped_base,
    {
        broadcast use group_hash_axioms;

        let fb: u64 = match find_file_base(headers) {
            None => {
                return Err(PageCacheError::NoLoadSegmentsError);
            },
            Some(b) => b,
        };
        let mut t: usize = 0;
        while t < headers.len()
            invariant
                t <= headers.len(),
                file_base(headers@) == Some(fb),
                forall|s: int|
                    0 <= s < t ==> (#[trigger] headers@[s]).well_formed(data@, fb, mapped_base),
            decreases headers.len() - t,
        {
            let h: ProgramHeader = headers[t];
            if h.is_load() && h.is_executable() {
                if !(h.fits_in(data) && h.keys_fit(fb, mapped_base)) {
                    assert(h == headers@[t as int]);
                    assert(!headers@[t as int].well_formed(data@, fb, mapped_base));
                    assert(!all_well_formed(data@, headers@, fb, mapped_base));
                    return Err(PageCacheError::FormatError);
                }
            }
            t = t + 1;
        }
        let mut page_data: HashMap<u64, [u8; 0x1000]> = HashMap::new();
        assert(page_view(page_data@) =~= Map::empty());
        let mut s: usize = 0;
        while s < headers.len()
            invariant
                s <= headers.len(),
                file_base(headers@) == Some(fb),
                all_well_formed(data@, headers@, fb, mapped_base),
                page_view(page_data@) == pages_upto(
                    data@,
                    headers@,
                    s as int,
                    fb,
                    mapped_base,
                ),
            decreases headers.len() - s,
        {
            let h: ProgramHeader = headers[s];
            assert(h == headers@[s as int]);
            assert(h.well_formed(data@, fb, mapped_base));
            if h.is_load() && h.is_executable() {
                let count: u64 = h.vm_size() / 4096;
                let ghost before = page_view(page_data@);
                let mut i: u64 = 0;
                while i < count
                    invariant
                        i <= count,
                        count == h.page_count(),
                        h.maps_pages(),
                        h.well_formed(data@, fb, mapped_base),
                        page_view(page_data@) == with_pages(
                            before,
                            data@,
                            h,
                            i as int,
                            fb,
                            mapped_base,
                        ),
                    decreases count - i,
                {
                    let page: [u8; 0x1000] = h.page_at(data, i);
                    let wide: i128 = h.p_vaddr as i128 + (i as i128) * 4096 - fb as i128
                        + mapped_base as i128;
                    let key: u64 = wide as u64;
                    let ghost prior = page_data@;
                    page_data.insert(key, page);
                    assert(page_view(page_data@) =~= page_view(prior).insert(key, page@));
                    i = i + 1;
                }
            }
            s = s + 1;
        }
        Ok(ElfExecutablePageCache { page_data, mapped_base })
    }

    /// Builds the cache from a parsed object: `None` stands for an object that
    /// is no ELF image. Without a `mapped_base` the default base of the image's
    /// bitness is taken.
    pub fn from_parsed(data: &[u8], image: Option<ElfImage>, mapped_base: Option<u64>) -> (r: Result<
        ElfExecutablePageCache,
        PageCacheError,
    >)
        ensures
            outcome_view(r) == cache_outcome(data@, image_model(image), mapped_base),
            r matches Ok(c) ==> c.base() == match mapped_base {
                Some(b) => b,
                None => default_base(true),
            },
    {
        match image {
            None => Err(PageCacheError::FormatError),
            Some(img) => {
                if !img.is_64 {
                    return Err(PageCacheError::FormatError);
                }
                let base: u64 = match mapped_base {
                    Some(b) => b,
                    None => default_mapped_base(img.is_64),
                };
                ElfExecutablePageCache::from_program_headers(data, &img.program_headers, base)
            },
        }
    }

    /// Builds the cache from the bytes of an executable image.
    pub fn executable_page_data_for_elf(data: &[u8], mapped_base: Option<u64>) -> (r: Result<
        ElfExecutablePageCache,
        PageCacheError,
    >)
        ensures
            outcome_view(r) == cache_outcome(data@, object_model(data@), mapped_base),
            r matches Ok(c) ==> c.base() == match mapped_base {
                Some(b) => b,
                None => default_base(true),
            },
    {
        match parse_object(data) {
            Ok(image) => ElfExecutablePageCache::from_parsed(data, image, mapped_base),
            Err(_) => Err(PageCacheError::FormatError),
        }
    }

    /// Lends the page stored under `addr`, or nothing if there is none. The
    /// address is looked up as given, without rounding. What the borrower
    /// leaves in the page is what the cache holds afterwards.
    pub fn get_page_data(&mut self, addr: u64) -> (r: Option<&mut [u8; 0x1000]>)
        ensures
            r.is_some() == old(self)@.contains_key(addr),
            final(self).base() == old(self).base(),
            match r {
                Some(page) => page@ == old(self)@[addr] && final(self)@ == old(self)@.insert(
                    addr,
                    final(page)@,
                ),
                None => final(self)@ == old(self)@,
            },
    {
        broadcast use group_hash_axioms;

        match self.page_data.entry(addr) {
            Entry::Occupied(o) => Some(o.into_mut()),
            Entry::Vacant(_) => None,
        }
    }
}

} // verus!
