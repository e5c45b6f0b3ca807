//! What the page map of an image holds: which segment owns each key, that every
//! whole page of every executable segment is present, and how the map moves
//! with the runtime base.

use crate::elf_executable_page_cache::{
    all_well_formed, build_pages, pages_upto, with_pages, PageCacheError,
};
use crate::program_header::{file_base, ProgramHeader};
use vstd::prelude::*;

verus! {

/// Distance of `key` from the segment's first relocated page.
pub open spec fn offset_in(h: ProgramHeader, key: u64, file_base: u64, runtime_base: u64) -> int {
    key - h.relocated_key(0, file_base, runtime_base)
}

/// `key` is the relocated key of one of the segment's first `k` pages.
pub open spec fn hits_below(
    h: ProgramHeader,
    k: int,
    key: u64,
    file_base: u64,
    runtime_base: u64,
) -> bool {
    let d = offset_in(h, key, file_base, runtime_base);
    d >= 0 && d % 4096 == 0 && d / 4096 < k
}

/// The segment enters a page under `key`.
pub open spec fn maps_key(h: ProgramHeader, key: u64, file_base: u64, runtime_base: u64) -> bool {
    h.maps_pages() && hits_below(h, h.page_count(), key, file_base, runtime_base)
}

/// Index, within the segment, of the page that relocates to `key`.
pub open spec fn page_index(h: ProgramHeader, key: u64, file_base: u64, runtime_base: u64) -> int {
    offset_in(h, key, file_base, runtime_base) / 4096
}

/// Index of the last of the first `n` segments that enters a page under
/// `key`, or -1 if none does.
pub open spec fn owner(
    headers: Seq<ProgramHeader>,
    n: int,
    key: u64,
    file_base: u64,
    runtime_base: u64,
) -> int
    decreases n,
{
    if n <= 0 {
        -1
    } else if maps_key(headers[n - 1], key, file_base, runtime_base) {
        n - 1
    } else {
        owner(headers, n - 1, key, file_base, runtime_base)
    }
}

proof fn lemma_with_pages(
    m: Map<u64, Seq<u8>>,
    data: Seq<u8>,
    h: ProgramHeader,
    k: int,
    fb: u64,
    rb: u64,
    key: u64,
)
    requires
        h.keys_in_range(fb, rb),
        0 <= k <= h.page_count(),
    ensures
        with_pages(m, data, h, k, fb, rb).contains_key(key) <==> (m.contains_key(key)
            || hits_below(h, k, key, fb, rb)),
        hits_below(h, k, key, fb, rb) ==> with_pages(m, data, h, k, fb, rb)[key] == h.page(
            data,
            page_index(h, key, fb, rb),
        ),
        !hits_below(h, k, key, fb, rb) ==> with_pages(m, data, h, k, fb, rb)[key] == m[key],
    decreases k,
{
    if k > 0 {
        lemma_with_pages(m, data, h, k - 1, fb, rb, key);
        let rk = h.relocated_key(k - 1, fb, rb);
        let d = offset_in(h, key, fb, rb);
        assert(0 <= rk <= u64::MAX);
        assert(rk == h.relocated_key(0, fb, rb) + (k - 1) * 4096);
        assert((key == rk as u64) <==> d == (k - 1) * 4096);
        assert(d == (k - 1) * 4096 <==> (d >= 0 && d % 4096 == 0 && d / 4096 == k - 1));
    }
}

/// The page map after `n` segments holds `key` exactly if one of them enters a
/// page under it, and then holds the page of the last that does.
pub proof fn lemma_page_map_contents(
    data: Seq<u8>,
    headers: Seq<ProgramHeader>,
    n: int,
    fb: u64,
    rb: u64,
    key: u64,
)
    requires
        all_well_formed(data, headers, fb, rb),
        0 <= n <= headers.len(),
    ensures
        -1 <= owner(headers, n, key, fb, rb) < n,
        pages_upto(data, headers, n, fb, rb).contains_key(key) <==> owner(headers, n, key, fb, rb)
            >= 0,
        owner(headers, n, key, fb, rb) >= 0 ==> {
            let h = headers[owner(headers, n, key, fb, rb)];
            &&& maps_key(h, key, fb, rb)
            &&& pages_upto(data, headers, n, fb, rb)[key] == h.page(
                data,
                page_index(h, key, fb, rb),
            )
        },
    decreases n,
{
    if n > 0 {
        lemma_page_map_contents(data, headers, n - 1, fb, rb, key);
        let h = headers[n - 1];
        assert(h.well_formed(data, fb, rb));
        if h.maps_pages() {
            lemma_with_pages(
                pages_upto(data, headers, n - 1, fb, rb),
                data,
                h,
                h.page_count(),
                fb,
                rb,
                key,
            );
        }
    }
}

proof fn lemma_owner_at_least(
    headers: Seq<ProgramHeader>,
    n: int,
    s: int,
    key: u64,
    fb: u64,
    rb: u64,
)
    requires
        0 <= s < n <= headers.len(),
        maps_key(headers[s], key, fb, rb),
    ensures
        owner(headers, n, key, fb, rb) >= s,
    decreases n,
{
    if n - 1 > s && !maps_key(headers[n - 1], key, fb, rb) {
        lemma_owner_at_least(headers, n - 1, s, key, fb, rb);
    }
}

proof fn lemma_owner_shift(
    headers: Seq<ProgramHeader>,
    n: int,
    key1: u64,
    key2: u64,
    fb: u64,
    b1: u64,
    b2: u64,
)
    requires
        key2 == key1 - b1 + b2,
    ensures
        owner(headers, n, key1, fb, b1) == owner(headers, n, key2, fb, b2),
    decreases n,
{
    if n > 0 {
        lemma_owner_shift(headers, n - 1, key1, key2, fb, b1, b2);
        assert(offset_in(headers[n - 1], key1, fb, b1) == offset_in(headers[n - 1], key2, fb, b2));
    }
}

/// Every whole page of every loadable executable segment is in the cache under
/// its relocated key. It holds the segment's own bytes, zero-extended, unless
/// a later segment enters a page under the same key.
pub proof fn lemma_segment_pages_present(
    data: Seq<u8>,
    headers: Seq<ProgramHeader>,
    rb: u64,
    fb: u64,
    m: Map<u64, Seq<u8>>,
    s: int,
    i: int,
)
    requires
        build_pages(data, headers, rb) == Ok::<Map<u64, Seq<u8>>, PageCacheError>(m),
        file_base(headers) == Some(fb),
        0 <= s < headers.len(),
        headers[s].maps_pages(),
        0 <= i < headers[s].page_count(),
    ensures
        0 <= headers[s].relocated_key(i, fb, rb) <= u64::MAX,
        m.contains_key(headers[s].relocated_key(i, fb, rb) as u64),
        (forall|t: int|
            s < t < headers.len() ==> !maps_key(
                #[trigger] headers[t],
                headers[s].relocated_key(i, fb, rb) as u64,
                fb,
                rb,
            )) ==> m[headers[s].relocated_key(i, fb, rb) as u64] == headers[s].page(data, i),
{
    let h = headers[s];
    let n = headers.len() as int;
    assert(h.well_formed(data, fb, rb));
    let key = h.relocated_key(i, fb, rb) as u64;
    assert(offset_in(h, key, fb, rb) == i * 4096);
    assert(maps_key(h, key, fb, rb));
    lemma_owner_at_least(headers, n, s, key, fb, rb);
    lemma_page_map_contents(data, headers, n, fb, rb, key);
}

/// Every key of the cache is the virtual address of a whole page of a loadable
/// executable segment, less the image's own base, plus the runtime base; the
/// page stored under it is a page of such a segment.
pub proof fn lemma_keys_are_relocated(
    data: Seq<u8>,
    headers: Seq<ProgramHeader>,
    rb: u64,
    fb: u64,
    m: Map<u64, Seq<u8>>,
    key: u64,
)
    requires
        build_pages(data, headers, rb) == Ok::<Map<u64, Seq<u8>>, PageCacheError>(m),
        file_base(headers) == Some(fb),
        m.contains_key(key),
    ensures
        exists|s: int, i: int|
            0 <= s < headers.len() && headers[s].maps_pages() && 0 <= i < headers[s].page_count()
                && key == #[trigger] headers[s].relocated_key(i, fb, rb) && m[key]
                == headers[s].page(data, i),
{
    let n = headers.len() as int;
    lemma_page_map_contents(data, headers, n, fb, rb, key);
    let s = owner(headers, n, key, fb, rb);
    let i = page_index(headers[s], key, fb, rb);
    assert(key == headers[s].relocated_key(i, fb, rb));
}

/// Where the image's own base, the runtime base and the address of every
/// loadable executable segment are page-aligned, so is every key of the cache.
pub proof fn lemma_keys_are_page_aligned(
    data: Seq<u8>,
    headers: Seq<ProgramHeader>,
    rb: u64,
    fb: u64,
    m: Map<u64, Seq<u8>>,
    key: u64,
)
    requires
        build_pages(data, headers, rb) == Ok::<Map<u64, Seq<u8>>, PageCacheError>(m),
        file_base(headers) == Some(fb),
        fb % 4096 == 0,
        rb % 4096 == 0,
        forall|s: int|
            0 <= s < headers.len() && (#[trigger] headers[s]).maps_pages() ==> headers[s].p_vaddr
                % 4096 == 0,
        m.contains_key(key),
    ensures
        key % 4096 == 0,
{
    let n = headers.len() as int;
    lemma_page_map_contents(data, headers, n, fb, rb, key);
    let h = headers[owner(headers, n, key, fb, rb)];
    let i = page_index(h, key, fb, rb);
    assert(key == h.p_vaddr + i * 4096 - fb + rb);
}

/// Moving the runtime base from `b1` to `b2` moves every key of the cache by
/// the same distance and leaves the page stored under it as it was.
pub proof fn lemma_relocation_shift(
    data: Seq<u8>,
    headers: Seq<ProgramHeader>,
    b1: u64,
    b2: u64,
    m1: Map<u64, Seq<u8>>,
    m2: Map<u64, Seq<u8>>,
    key: u64,
)
    requires
        build_pages(data, headers, b1) == Ok::<Map<u64, Seq<u8>>, PageCacheError>(m1),
        build_pages(data, headers, b2) == Ok::<Map<u64, Seq<u8>>, PageCacheError>(m2),
        m1.contains_key(key),
    ensures
        0 <= key - b1 + b2 <= u64::MAX,
        m2.contains_key((key - b1 + b2) as u64),
        m2[(key - b1 + b2) as u64] == m1[key],
{
    let n = headers.len() as int;
    let fb = file_base(headers)->Some_0;
    lemma_page_map_contents(data, headers, n, fb, b1, key);
    let s = owner(headers, n, key, fb, b1);
    let h = headers[s];
    let i = page_index(h, key, fb, b1);
    assert(h.well_formed(data, fb, b2));
    assert(key == h.relocated_key(i, fb, b1));
    assert(key - b1 + b2 == h.relocated_key(i, fb, b2));
    let key2 = (key - b1 + b2) as u64;
    lemma_owner_shift(headers, n, key, key2, fb, b1, b2);
    lemma_page_map_contents(data, headers, n, fb, b2, key2);
    assert(offset_in(h, key2, fb, b2) == offset_in(h, key, fb, b1));
}

} // verus!
