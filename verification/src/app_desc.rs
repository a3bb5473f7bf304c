//! The ESP-IDF compatible application descriptor, which the second stage
//! bootloader reads from the application image.
use vstd::prelude::*;
use vstd::string::StringSliceAdditionalSpecFns;

verus! {

/// The magic word that starts an application descriptor.
pub const ESP_APP_DESC_MAGIC_WORD: u32 = 0xABCD5432;

/// The C string of `n` bytes that holds `s`: its first bytes, as many as
/// fit, then zeros. A string that fills it gets no terminating zero.
pub open spec fn cstr_of(s: Seq<u8>, n: int) -> Seq<u8> {
    Seq::new(n as nat, |i: int| if i < s.len() { s[i] } else { 0u8 })
}

/// The C string of `n` bytes that holds `s`.
pub fn str_to_cstr_array(s: &str, n: usize) -> (r: Vec<u8>)
    requires
        s.spec_bytes().len() >= 1,
        n >= 1,
    ensures
        r@ == cstr_of(s.spec_bytes(), n as int),
{
    let bytes = s.as_bytes();
    let mut ret: Vec<u8> = Vec::new();
    let mut k: usize = 0;
    while k < n
        invariant
            k <= n,
            ret@.len() == k,
            forall|i: int| 0 <= i < k ==> ret@[i] == 0u8,
        decreases n - k,
    {
        ret.push(0u8);
        k = k + 1;
    }
    let mut i: usize = 0;
    loop
        invariant_except_break
            i < n,
            i < bytes@.len(),
        invariant
            bytes@ == s.spec_bytes(),
            1 <= n,
            1 <= bytes@.len(),
            i <= n,
            i <= bytes@.len(),
            ret@.len() == n,
            forall|j: int| 0 <= j < i ==> ret@[j] == bytes@[j],
            forall|j: int| i <= j < n ==> ret@[j] == 0u8,
        ensures
            i == n || i == bytes@.len(),
        decreases n - i,
    {
        ret.set(i, bytes[i]);
        i = i + 1;
        if i >= bytes.len() || i >= n {
            break;
        }
    }
    assert(ret@ =~= cstr_of(s.spec_bytes(), n as int));
    ret
}

/// The base-2 logarithm of `n`, rounded down.
pub open spec fn ilog2(n: u32) -> nat
    decreases n,
{
    if n < 2 { 0 } else { 1 + ilog2(n / 2) }
}

/// The logarithm of a number below `2^k` is below `k`.
proof fn lemma_ilog2_bound(n: u32, k: nat)
    requires
        k >= 1,
        n < vstd::arithmetic::power2::pow2(k),
    ensures
        ilog2(n) < k,
    decreases n,
{
    if n >= 2 {
        vstd::arithmetic::power2::lemma_pow2_unfold(k);
        if k == 1 {
            assert(vstd::arithmetic::power2::pow2(0) == 1) by { vstd::arithmetic::power2::lemma2_to64(); }
        } else {
            lemma_ilog2_bound(n / 2, (k - 1) as nat);
        }
    }
}

/// The base-2 logarithm of `n`, rounded down.
pub fn log2_floor(n: u32) -> (r: u8)
    requires
        n > 0,
    ensures
        r == ilog2(n),
{
    proof {
        vstd::arithmetic::power2::lemma2_to64();
        lemma_ilog2_bound(n, 32);
    }
    let mut v = n;
    let mut count: u8 = 0;
    while v >= 2
        invariant
            1 <= v <= n,
            ilog2(n) < 32,
            ilog2(n) == count + ilog2(v),
        decreases v,
    {
        v = v / 2;
        count = count + 1;
    }
    count
}

/// The ESP-IDF compatible application descriptor.
pub struct EspAppDesc {
    /// `ESP_APP_DESC_MAGIC_WORD`.
    pub magic_word: u32,
    /// The secure version.
    pub secure_version: u32,
    /// Reserved.
    pub reserv1: [u32; 2],
    /// The application version, 32 bytes.
    pub version: Vec<u8>,
    /// The project name, 32 bytes.
    pub project_name: Vec<u8>,
    /// The compile time, 16 bytes.
    pub time: Vec<u8>,
    /// The compile date, 16 bytes.
    pub date: Vec<u8>,
    /// The ESP-IDF version, 32 bytes.
    pub idf_ver: Vec<u8>,
    /// The SHA-256 of the ELF file.
    pub app_elf_sha256: [u8; 32],
    /// The minimal eFuse block revision supported, as major * 100 + minor.
    pub min_efuse_blk_rev_full: u16,
    /// The maximal eFuse block revision supported, as major * 100 + minor.
    pub max_efuse_blk_rev_full: u16,
    /// The MMU page size, as its base-2 logarithm.
    pub mmu_page_size: u8,
    /// Reserved.
    pub reserv3: [u8; 3],
    /// Reserved.
    pub reserv2: [u32; 18],
}

impl EspAppDesc {
    /// The descriptor of the given application: every string is held as a
    /// C string of its field's size, and the MMU page size as its logarithm.
    pub fn new_internal(
        version: &str,
        project_name: &str,
        build_time: &str,
        build_date: &str,
        idf_ver: &str,
        min_efuse_blk_rev_full: u16,
        max_efuse_blk_rev_full: u16,
        mmu_page_size: u32,
    ) -> (r: Self)
        requires
            version.spec_bytes().len() >= 1,
            project_name.spec_bytes().len() >= 1,
            build_time.spec_bytes().len() >= 1,
            build_date.spec_bytes().len() >= 1,
            idf_ver.spec_bytes().len() >= 1,
            mmu_page_size > 0,
        ensures
            r.magic_word == ESP_APP_DESC_MAGIC_WORD,
            r.secure_version == 0,
            r.reserv1@ == seq![0u32, 0u32],
            r.version@ == cstr_of(version.spec_bytes(), 32),
            r.project_name@ == cstr_of(project_name.spec_bytes(), 32),
            r.time@ == cstr_of(build_time.spec_bytes(), 16),
            r.date@ == cstr_of(build_date.spec_bytes(), 16),
            r.idf_ver@ == cstr_of(idf_ver.spec_bytes(), 32),
            forall|i: int| 0 <= i < 32 ==> r.app_elf_sha256[i] == 0u8,
            r.min_efuse_blk_rev_full == min_efuse_blk_rev_full,
            r.max_efuse_blk_rev_full == max_efuse_blk_rev_full,
            r.mmu_page_size == ilog2(mmu_page_size),
            forall|i: int| 0 <= i < 3 ==> r.reserv3[i] == 0u8,
            forall|i: int| 0 <= i < 18 ==> r.reserv2[i] == 0u32,
    {
        let r = EspAppDesc {
            magic_word: ESP_APP_DESC_MAGIC_WORD,
            secure_version: 0,
            reserv1: [0; 2],
            version: str_to_cstr_array(version, 32),
            project_name: str_to_cstr_array(project_name, 32),
            time: str_to_cstr_array(build_time, 16),
            date: str_to_cstr_array(build_date, 16),
            idf_ver: str_to_cstr_array(idf_ver, 32),
            app_elf_sha256: [0; 32],
            min_efuse_blk_rev_full,
            max_efuse_blk_rev_full,
            mmu_page_size: log2_floor(mmu_page_size),
            reserv3: [0; 3],
            reserv2: [0; 18],
        };
        assert(r.reserv1@ =~= seq![0u32, 0u32]);
        r
    }
}

} // verus!
