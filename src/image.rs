use vstd::prelude::*;
use vstd::arithmetic::div_mod::lemma_fundamental_div_mod;
use crate::error::Error;

verus! {

/// Entries in the fixed root directory of a FAT12 or FAT16 volume.
pub const ROOT_ENTRIES: u64 = 512;

/// Bytes of one directory entry.
pub const DIR_ENTRY_BYTES: u64 = 32;

/// The smallest capacity of any valid volume: 36 blocks of 512 bytes, that
/// is a boot block, two one-block tables, a 32-block root directory and one
/// data cluster.
pub const MIN_VOLUME_BYTES: u64 = 18432;

/// A file stored in the image.
#[derive(Debug)]
pub struct ImageFile {
    pub path: String,
    pub data: Vec<u8>,
}

/// The allocation model of a fixed-capacity FAT-style EFI system partition.
///
/// The layout follows the FAT variant that the cluster count selects. FAT12
/// and FAT16 have one boot block, two allocation tables and a fixed root
/// directory of `ROOT_ENTRIES` entries. FAT32 has 32 reserved blocks, two
/// tables, and a root directory that takes whole data clusters, at least one.
/// A cluster is one block. Each stored file takes the clusters that its bytes
/// need, and one root directory entry under its full path.
///
/// The model keeps the accounting and the stored contents. It does not lay
/// out the volume's bytes, and it does not count subdirectories: a writer
/// that creates the intermediate directories of a path needs entries and
/// clusters for them that this model does not reserve.
#[derive(Debug)]
pub struct Image {
    path: String,
    block_size: u64,
    block_count: u64,
    fat_bits: u64,
    data_blocks: u64,
    used_blocks: u64,
    files: Vec<ImageFile>,
}

/// What an image holds, seen from outside.
pub ghost struct ImageView {
    pub path: Seq<char>,
    pub block_size: nat,
    pub block_count: nat,
    /// 12, 16 or 32: the width of an allocation table entry.
    pub fat_bits: nat,
    /// Blocks of the data area.
    pub data_blocks: nat,
    /// Data blocks taken by the stored files.
    pub used_blocks: nat,
    /// Directory entries in use.
    pub entries: nat,
    /// Bytes of all stored files together.
    pub stored_bytes: nat,
    /// The stored files by path.
    pub files: Map<Seq<char>, Seq<u8>>,
}

pub open spec fn valid_block_size(bs: nat) -> bool {
    bs == 512 || bs == 1024 || bs == 2048 || bs == 4096
}

pub open spec fn ceil_div(a: nat, b: nat) -> nat
    recommends
        b > 0,
{
    a / b + if a % b == 0 { 0nat } else { 1nat }
}

/// Blocks of one allocation table with `bits`-bit entries, one entry for
/// every block and the two reserved entries.
pub open spec fn table_blocks(bs: nat, bc: nat, bits: nat) -> nat {
    ceil_div(ceil_div((bc + 2) * bits, 8), bs)
}

pub open spec fn root_blocks(bs: nat) -> nat {
    ceil_div(ROOT_ENTRIES as nat * DIR_ENTRY_BYTES as nat, bs)
}

/// Blocks before the data area of a FAT12 or FAT16 volume: the boot block,
/// two tables and the fixed root directory.
pub open spec fn fixed_root_overhead(bs: nat, bc: nat, bits: nat) -> nat {
    1 + 2 * table_blocks(bs, bc, bits) + root_blocks(bs)
}

/// Blocks before the data area of a FAT32 volume: 32 reserved blocks and
/// two tables.
pub open spec fn fat32_overhead(bs: nat, bc: nat) -> nat {
    32 + 2 * table_blocks(bs, bc, 32)
}

/// The FAT variant by cluster count, each count taken in that variant's
/// layout: FAT12 below 4085 clusters, FAT16 below 65525, FAT32 beyond.
pub open spec fn fat_bits(bs: nat, bc: nat) -> nat {
    if bc < fixed_root_overhead(bs, bc, 12) + 4085 {
        12
    } else if bc < fixed_root_overhead(bs, bc, 16) + 65525 {
        16
    } else {
        32
    }
}

/// Blocks before the data area in the layout of the selected variant.
pub open spec fn overhead_blocks(bs: nat, bc: nat) -> nat {
    if fat_bits(bs, bc) == 32 {
        fat32_overhead(bs, bc)
    } else {
        fixed_root_overhead(bs, bc, fat_bits(bs, bc))
    }
}

/// Data clusters that the root directory takes with `entries` entries: on
/// FAT32 the clusters the entries fill, at least one; none for the fixed root.
pub open spec fn dir_blocks(fat: nat, entries: nat, bs: nat) -> nat {
    if fat != 32 {
        0
    } else if entries == 0 {
        1
    } else {
        ceil_div(entries, bs / DIR_ENTRY_BYTES as nat)
    }
}

/// Whether the root directory can hold `entries` entries.
pub open spec fn dir_fits(fat: nat, entries: nat) -> bool {
    fat == 32 || entries <= ROOT_ENTRIES
}

pub open spec fn file_blocks(f: ImageFile, bs: nat) -> nat {
    ceil_div(f.data@.len(), bs)
}

pub open spec fn used_of(s: Seq<ImageFile>, bs: nat) -> nat
    decreases s.len(),
{
    if s.len() == 0 {
        0
    } else {
        used_of(s.drop_last(), bs) + file_blocks(s.last(), bs)
    }
}

pub open spec fn bytes_of(s: Seq<ImageFile>) -> nat
    decreases s.len(),
{
    if s.len() == 0 {
        0
    } else {
        bytes_of(s.drop_last()) + s.last().data@.len()
    }
}

pub open spec fn contents(s: Seq<ImageFile>) -> Map<Seq<char>, Seq<u8>>
    decreases s.len(),
{
    if s.len() == 0 {
        Map::empty()
    } else {
        contents(s.drop_last()).insert(s.last().path@, s.last().data@)
    }
}

pub open spec fn paths_unique(s: Seq<ImageFile>) -> bool {
    forall|i: int, j: int| 0 <= i < j < s.len() ==> s[i].path@ != s[j].path@
}

/// Data blocks that the file at `p` holds now, if any.
pub open spec fn blocks_at(v: ImageView, p: Seq<char>) -> nat {
    if v.files.contains_key(p) {
        ceil_div(v.files[p].len(), v.block_size)
    } else {
        0
    }
}

/// Whether storing `n` bytes at `p` fits the data area and the directory.
pub open spec fn fits(v: ImageView, p: Seq<char>, n: nat) -> bool {
    let entries = if v.files.contains_key(p) { v.entries } else { v.entries + 1 };
    &&& v.used_blocks - blocks_at(v, p) + ceil_div(n, v.block_size) + dir_blocks(
        v.fat_bits,
        entries,
        v.block_size,
    ) <= v.data_blocks
    &&& dir_fits(v.fat_bits, entries)
}

/// The image after `d` is stored at `p`, replacing any file there.
pub open spec fn with_file(v: ImageView, p: Seq<char>, d: Seq<u8>) -> ImageView {
    ImageView {
        used_blocks: (v.used_blocks - blocks_at(v, p) + ceil_div(d.len(), v.block_size)) as nat,
        entries: if v.files.contains_key(p) { v.entries } else { v.entries + 1 },
        stored_bytes: (v.stored_bytes - (if v.files.contains_key(p) { v.files[p].len() } else { 0 })
            + d.len()) as nat,
        files: v.files.insert(p, d),
        ..v
    }
}

impl View for Image {
    type V = ImageView;

    closed spec fn view(&self) -> ImageView {
        ImageView {
            path: self.path@,
            block_size: self.block_size as nat,
            block_count: self.block_count as nat,
            fat_bits: self.fat_bits as nat,
            data_blocks: self.data_blocks as nat,
            used_blocks: self.used_blocks as nat,
            entries: self.files@.len(),
            stored_bytes: bytes_of(self.files@),
            files: contents(self.files@),
        }
    }
}

proof fn lemma_contents_index(s: Seq<ImageFile>, i: int)
    requires
        paths_unique(s),
        0 <= i < s.len(),
    ensures
        contents(s).contains_key(s[i].path@),
        contents(s)[s[i].path@] == s[i].data@,
    decreases s.len(),
{
    if i < s.len() - 1 {
        lemma_contents_index(s.drop_last(), i);
    }
}

proof fn lemma_contents_absent(s: Seq<ImageFile>, p: Seq<char>)
    requires
        forall|i: int| 0 <= i < s.len() ==> s[i].path@ != p,
    ensures
        !contents(s).contains_key(p),
    decreases s.len(),
{
    if s.len() > 0 {
        lemma_contents_absent(s.drop_last(), p);
    }
}

/// Replacing the file at index `i` by one with the same path changes the
/// contents at that path alone, and the totals by the difference.
proof fn lemma_replace(s: Seq<ImageFile>, i: int, f: ImageFile, bs: nat)
    requires
        paths_unique(s),
        0 <= i < s.len(),
        s[i].path@ == f.path@,
    ensures
        contents(s.update(i, f)) == contents(s).insert(f.path@, f.data@),
        used_of(s, bs) >= file_blocks(s[i], bs),
        used_of(s.update(i, f), bs) == used_of(s, bs) - file_blocks(s[i], bs) + file_blocks(f, bs),
        bytes_of(s) >= s[i].data@.len(),
        bytes_of(s.update(i, f)) == bytes_of(s) - s[i].data@.len() + f.data@.len(),
    decreases s.len(),
{
    let t = s.update(i, f);
    if i == s.len() - 1 {
        assert(t.drop_last() =~= s.drop_last());
        lemma_contents_absent(s.drop_last(), f.path@);
        assert(contents(t) =~= contents(s).insert(f.path@, f.data@));
    } else {
        assert(t.drop_last() =~= s.drop_last().update(i, f));
        lemma_replace(s.drop_last(), i, f, bs);
        assert(contents(t) =~= contents(s).insert(f.path@, f.data@));
    }
}

proof fn lemma_ceil_bound(len: nat, bs: nat)
    requires
        bs > 0,
    ensures
        len <= ceil_div(len, bs) * bs,
{
    lemma_fundamental_div_mod(len as int, bs as int);
    let q = len / bs;
    assert((q + 1) * bs == q * bs + bs) by (nonlinear_arith);
    assert(q * bs == bs * q) by (nonlinear_arith);
}

proof fn lemma_bytes_within_blocks(s: Seq<ImageFile>, bs: nat)
    requires
        bs > 0,
    ensures
        bytes_of(s) <= used_of(s, bs) * bs,
    decreases s.len(),
{
    if s.len() > 0 {
        lemma_bytes_within_blocks(s.drop_last(), bs);
        lemma_ceil_bound(s.last().data@.len(), bs);
        let a = used_of(s.drop_last(), bs);
        let b = file_blocks(s.last(), bs);
        assert((a + b) * bs == a * bs + b * bs) by (nonlinear_arith);
    }
}

fn ceil_div_exec(a: u64, b: u64) -> (r: u64)
    requires
        b > 0,
    ensures
        r == ceil_div(a as nat, b as nat),
        r <= a,
{
    if a % b == 0 {
        assert(a / b <= a) by (nonlinear_arith)
            requires
                b > 0,
        ;
        a / b
    } else {
        proof {
            lemma_fundamental_div_mod(a as int, b as int);
        }
        assert(a / b + 1 <= a) by (nonlinear_arith)
            requires
                b > 0,
                a % b != 0,
                a == b * (a / b) + a % b,
                a % b < b,
        ;
        a / b + 1
    }
}

fn table_blocks_exec(bs: u64, bc: u64, bits: u64) -> (r: u64)
    requires
        valid_block_size(bs as nat),
        bc <= u32::MAX,
        bits <= 32,
    ensures
        r == table_blocks(bs as nat, bc as nat, bits as nat),
        r <= 0x4_0000_0000,
{
    assert((bc + 2) * bits <= (u32::MAX as u64 + 2) * 32) by (nonlinear_arith)
        requires
            bits <= 32,
            bc <= u32::MAX,
    ;
    let table_bytes = ceil_div_exec((bc + 2) * bits, 8);
    ceil_div_exec(table_bytes, bs)
}

/// The FAT variant and the blocks before the data area.
fn layout(bs: u64, bc: u64) -> (r: (u64, u64))
    requires
        valid_block_size(bs as nat),
        bc <= u32::MAX,
    ensures
        r.0 == fat_bits(bs as nat, bc as nat),
        r.1 == overhead_blocks(bs as nat, bc as nat),
{
    let root = ceil_div_exec(ROOT_ENTRIES * DIR_ENTRY_BYTES, bs);
    let fat12 = 1 + 2 * table_blocks_exec(bs, bc, 12) + root;
    if bc < fat12 + 4085 {
        return (12, fat12);
    }
    let fat16 = 1 + 2 * table_blocks_exec(bs, bc, 16) + root;
    if bc < fat16 + 65525 {
        return (16, fat16);
    }
    (32, 32 + 2 * table_blocks_exec(bs, bc, 32))
}

fn dir_blocks_exec(fat: u64, entries: u64, bs: u64) -> (r: u64)
    requires
        valid_block_size(bs as nat),
    ensures
        r == dir_blocks(fat as nat, entries as nat, bs as nat),
{
    if fat != 32 {
        0
    } else if entries == 0 {
        1
    } else {
        ceil_div_exec(entries, bs / DIR_ENTRY_BYTES)
    }
}

/// With at most 128 entries to a cluster, `entries` entries take at least
/// `entries / 128` clusters.
proof fn lemma_entries_bounded(fat: nat, entries: nat, bs: nat)
    requires
        valid_block_size(bs),
        fat == 32,
    ensures
        entries <= 128 * dir_blocks(fat, entries, bs),
{
    if entries > 0 {
        let k = bs / DIR_ENTRY_BYTES as nat;
        assert(k <= 128 && k > 0);
        lemma_ceil_bound(entries, k);
        let c = ceil_div(entries, k);
        assert(c * k <= 128 * c) by (nonlinear_arith)
            requires
                k <= 128,
        ;
    }
}

impl Image {
    /// The invariant: a valid block size, the layout of the selected FAT
    /// variant with a data area behind it, a usage count that matches the
    /// stored files and, with the root directory's clusters, fits the data
    /// area, unique paths, and a root directory that holds every file.
    pub closed spec fn well_formed(&self) -> bool {
        let bs = self.block_size as nat;
        let bc = self.block_count as nat;
        &&& valid_block_size(bs)
        &&& self.block_count <= u32::MAX
        &&& self.block_count > overhead_blocks(bs, bc)
        &&& self.fat_bits == fat_bits(bs, bc)
        &&& self.data_blocks == self.block_count - overhead_blocks(bs, bc)
        &&& self.used_blocks == used_of(self.files@, bs)
        &&& self.used_blocks + dir_blocks(self.fat_bits as nat, self.files@.len(), bs)
            <= self.data_blocks
        &&& dir_fits(self.fat_bits as nat, self.files@.len())
        &&& self.files@.len() <= 128 * self.data_blocks + ROOT_ENTRIES
        &&& paths_unique(self.files@)
    }

    /// Creates an empty volume of `block_size * block_count` bytes at `path`.
    /// A capacity below `MIN_VOLUME_BYTES` is too small whatever the block
    /// size. Otherwise block sizes other than 512, 1024, 2048 and 4096 are
    /// refused, and a capacity whose layout leaves no data block (or, on
    /// FAT32, none for the root directory) is too small.
    pub fn create(path: String, block_size: u16, block_count: u32) -> (r: Result<Image, Error>)
        ensures
            block_size * block_count < MIN_VOLUME_BYTES ==> match r {
                Err(Error::ImageTooSmall) => true,
                _ => false,
            },
            block_size * block_count >= MIN_VOLUME_BYTES && !valid_block_size(block_size as nat)
                ==> match r {
                Err(Error::InvalidParameter(_)) => true,
                _ => false,
            },
            block_size * block_count >= MIN_VOLUME_BYTES && valid_block_size(block_size as nat)
                && block_count <= overhead_blocks(block_size as nat, block_count as nat) ==> match r {
                Err(Error::ImageTooSmall) => true,
                _ => false,
            },
            block_size * block_count >= MIN_VOLUME_BYTES && valid_block_size(block_size as nat)
                && block_count > overhead_blocks(block_size as nat, block_count as nat) ==> match r {
                Ok(img) => {
                    &&& img.well_formed()
                    &&& img@.path == path@
                    &&& img@.block_size == block_size
                    &&& img@.block_count == block_count
                    &&& img@.fat_bits == fat_bits(block_size as nat, block_count as nat)
                    &&& img@.data_blocks == block_count - overhead_blocks(
                        block_size as nat,
                        block_count as nat,
                    )
                    &&& img@.used_blocks == 0
                    &&& img@.entries == 0
                    &&& img@.stored_bytes == 0
                    &&& img@.files == Map::<Seq<char>, Seq<u8>>::empty()
                },
                Err(_) => false,
            },
    {
        let bs = block_size as u64;
        let bc = block_count as u64;
        assert(bs * bc <= 0xffff * 0xffff_ffff) by (nonlinear_arith)
            requires
                bs <= 0xffff,
                bc <= 0xffff_ffff,
        ;
        if bs * bc < MIN_VOLUME_BYTES {
            return Err(Error::ImageTooSmall);
        }
        if !(bs == 512 || bs == 1024 || bs == 2048 || bs == 4096) {
            return Err(Error::InvalidParameter(String::from_str("block_size")));
        }
        let (bits, reserved) = layout(bs, bc);
        if bc <= reserved {
            return Err(Error::ImageTooSmall);
        }
        let img = Image {
            path,
            block_size: bs,
            block_count: bc,
            fat_bits: bits,
            data_blocks: bc - reserved,
            used_blocks: 0,
            files: Vec::new(),
        };
        proof {
            assert(contents(img.files@) =~= Map::<Seq<char>, Seq<u8>>::empty());
        }
        Ok(img)
    }

    /// Stores the content of the host file `host_path` at `image_path`,
    /// replacing any file there. A missing host file is reported as such; a
    /// file that does not fit the data area or the directory leaves the image
    /// as it was and reports `OutOfSpace`.
    pub fn copy_into(&mut self, host_path: &str, content: Option<Vec<u8>>, image_path: &str) -> (r:
        Result<(), Error>)
        requires
            old(self).well_formed(),
        ensures
            final(self).well_formed(),
            match content {
                None => {
                    &&& *final(self) == *old(self)
                    &&& match r {
                        Err(Error::HostArtifactMissing(s)) => s@ == host_path@,
                        _ => false,
                    }
                },
                Some(d) => if fits(old(self)@, image_path@, d@.len()) {
                    &&& r is Ok
                    &&& final(self)@ == with_file(old(self)@, image_path@, d@)
                } else {
                    &&& *final(self) == *old(self)
                    &&& match r {
                        Err(Error::OutOfSpace) => true,
                        _ => false,
                    }
                },
            },
    {
        match content {
            None => Err(Error::HostArtifactMissing(String::from_str(host_path))),
            Some(data) => self.store(data, image_path),
        }
    }

    /// The index of the file at `path`, if any.
    fn find(&self, path: &String) -> (r: Option<usize>)
        requires
            self.well_formed(),
        ensures
            match r {
                Some(i) => {
                    &&& i < self.files@.len()
                    &&& self.files@[i as int].path@ == path@
                    &&& self@.files.contains_key(path@)
                    &&& self@.files[path@] == self.files@[i as int].data@
                },
                None => !self@.files.contains_key(path@),
            },
    {
        let mut i: usize = 0;
        while i < self.files.len()
            invariant
                i <= self.files@.len(),
                self.well_formed(),
                forall|j: int| 0 <= j < i ==> self.files@[j].path@ != path@,
            decreases self.files@.len() - i,
        {
            if self.files[i].path == *path {
                proof {
                    lemma_contents_index(self.files@, i as int);
                }
                return Some(i);
            }
            i = i + 1;
        }
        proof {
            lemma_contents_absent(self.files@, path@);
        }
        None
    }

    fn store(&mut self, data: Vec<u8>, image_path: &str) -> (r: Result<(), Error>)
        requires
            old(self).well_formed(),
        ensures
            final(self).well_formed(),
            if fits(old(self)@, image_path@, data@.len()) {
                &&& r is Ok
                &&& final(self)@ == with_file(old(self)@, image_path@, data@)
            } else {
                &&& *final(self) == *old(self)
                &&& match r {
                    Err(Error::OutOfSpace) => true,
                    _ => false,
                }
            },
    {
        let path = String::from_str(image_path);
        let ghost s = self.files@;
        let ghost bs = self.block_size as nat;
        let found = self.find(&path);
        let new_blocks = ceil_div_exec(data.len() as u64, self.block_size);
        match found {
            Some(i) => {
                let ghost f = ImageFile { path: path, data: data };
                proof {
                    lemma_replace(s, i as int, f, bs);
                }
                let old_blocks = ceil_div_exec(self.files[i].data.len() as u64, self.block_size);
                let rest = self.used_blocks - old_blocks;
                if new_blocks > self.data_blocks - rest {
                    return Err(Error::OutOfSpace);
                }
                let dirs = dir_blocks_exec(self.fat_bits, self.files.len() as u64, self.block_size);
                if dirs > self.data_blocks - rest - new_blocks {
                    return Err(Error::OutOfSpace);
                }
                self.files.set(i, ImageFile { path, data });
                self.used_blocks = rest + new_blocks;
                proof {
                    assert(self.files@ == s.update(i as int, f));
                    assert forall|a: int, b: int| 0 <= a < b < self.files@.len() implies self.files@[a].path@
                        != self.files@[b].path@ by {
                        assert(s[a].path@ != s[b].path@);
                    }
                    assert(self@.files =~= with_file(old(self)@, image_path@, f.data@).files);
                }
                Ok(())
            },
            None => {
                let entries = self.files.len() as u64 + 1;
                if self.fat_bits != 32 && entries > ROOT_ENTRIES {
                    return Err(Error::OutOfSpace);
                }
                if new_blocks > self.data_blocks - self.used_blocks {
                    return Err(Error::OutOfSpace);
                }
                let dirs = dir_blocks_exec(self.fat_bits, entries, self.block_size);
                if dirs > self.data_blocks - self.used_blocks - new_blocks {
                    return Err(Error::OutOfSpace);
                }
                proof {
                    if self.fat_bits == 32 {
                        lemma_entries_bounded(32, entries as nat, bs);
                    }
                }
                let ghost f = ImageFile { path: path, data: data };
                proof {
                    assert forall|j: int| 0 <= j < s.len() implies s[j].path@ != image_path@ by {
                        if s[j].path@ == image_path@ {
                            lemma_contents_index(s, j);
                        }
                    }
                }
                self.files.push(ImageFile { path, data });
                self.used_blocks = self.used_blocks + new_blocks;
                proof {
                    assert(self.files@.drop_last() =~= s);
                    assert(self@.files =~= with_file(old(self)@, image_path@, f.data@).files);
                }
                Ok(())
            },
        }
    }

    /// Where the container lives on the host.
    pub fn path(&self) -> (r: &String)
        ensures
            r@ == self@.path,
    {
        &self.path
    }

    pub fn block_size(&self) -> (r: u64)
        ensures
            r == self@.block_size,
    {
        self.block_size
    }

    pub fn block_count(&self) -> (r: u64)
        ensures
            r == self@.block_count,
    {
        self.block_count
    }

    /// The width of an allocation table entry: 12, 16 or 32.
    pub fn table_entry_bits(&self) -> (r: u64)
        ensures
            r == self@.fat_bits,
    {
        self.fat_bits
    }

    /// Blocks of the data area, behind the volume structure.
    pub fn data_blocks(&self) -> (r: u64)
        ensures
            r == self@.data_blocks,
    {
        self.data_blocks
    }

    /// Data blocks taken by the stored files.
    pub fn used_blocks(&self) -> (r: u64)
        ensures
            r == self@.used_blocks,
    {
        self.used_blocks
    }

    /// The number of stored files.
    pub fn file_count(&self) -> (r: usize)
        ensures
            r == self@.entries,
    {
        self.files.len()
    }

    /// The content stored at `image_path`, if a file is there.
    pub fn read(&self, image_path: &str) -> (r: Option<Vec<u8>>)
        requires
            self.well_formed(),
        ensures
            match r {
                Some(d) => self@.files.contains_key(image_path@) && d@ == self@.files[image_path@],
                None => !self@.files.contains_key(image_path@),
            },
    {
        let path = String::from_str(image_path);
        match self.find(&path) {
            Some(i) => {
                let d = self.files[i].data.clone();
                assert(d@ =~= self.files@[i as int].data@);
                Some(d)
            },
            None => None,
        }
    }
}

/// The stored bytes never exceed the capacity `block_size * block_count`.
pub proof fn lemma_within_capacity(img: &Image)
    requires
        img.well_formed(),
    ensures
        img@.stored_bytes <= img@.block_size * img@.block_count,
{
    let bs = img.block_size as nat;
    lemma_bytes_within_blocks(img.files@, bs);
    let u = img.used_blocks as nat;
    let c = img.block_count as nat;
    assert(u * bs <= c * bs) by (nonlinear_arith)
        requires
            u <= c,
    ;
    assert(c * bs == bs * c) by (nonlinear_arith);
}

proof fn lemma_bytes_without(s: Seq<ImageFile>, i: int, bs: nat)
    requires
        bs > 0,
        0 <= i < s.len(),
    ensures
        used_of(s, bs) >= file_blocks(s[i], bs),
        bytes_of(s) >= s[i].data@.len(),
        bytes_of(s) - s[i].data@.len() <= (used_of(s, bs) - file_blocks(s[i], bs)) * bs,
    decreases s.len(),
{
    if i == s.len() - 1 {
        lemma_bytes_within_blocks(s.drop_last(), bs);
    } else {
        lemma_bytes_without(s.drop_last(), i, bs);
        lemma_ceil_bound(s.last().data@.len(), bs);
        let a = used_of(s.drop_last(), bs) - file_blocks(s[i], bs);
        let b = file_blocks(s.last(), bs);
        assert((a + b) * bs == a * bs + b * bs) by (nonlinear_arith);
    }
}

proof fn lemma_present_has_index(s: Seq<ImageFile>, p: Seq<char>) -> (i: int)
    requires
        paths_unique(s),
        contents(s).contains_key(p),
    ensures
        0 <= i < s.len(),
        s[i].path@ == p,
{
    if forall|j: int| 0 <= j < s.len() ==> s[j].path@ != p {
        lemma_contents_absent(s, p);
    }
    choose|j: int| 0 <= j < s.len() && s[j].path@ == p
}

/// A copy is accepted only where the bytes stored afterwards still fit the
/// capacity `block_size * block_count`.
pub proof fn lemma_store_within_capacity(img: &Image, p: Seq<char>, d: Seq<u8>)
    requires
        img.well_formed(),
        fits(img@, p, d.len()),
    ensures
        with_file(img@, p, d).stored_bytes <= img@.block_size * img@.block_count,
{
    let s = img.files@;
    let bs = img.block_size as nat;
    let c = img.block_count as nat;
    let n = ceil_div(d.len(), bs);
    lemma_ceil_bound(d.len(), bs);
    let kept_blocks: nat;
    if img@.files.contains_key(p) {
        let i = lemma_present_has_index(s, p);
        lemma_contents_index(s, i);
        lemma_bytes_without(s, i, bs);
        kept_blocks = (used_of(s, bs) - file_blocks(s[i], bs)) as nat;
        assert(with_file(img@, p, d).stored_bytes == bytes_of(s) - s[i].data@.len() + d.len());
    } else {
        lemma_bytes_within_blocks(s, bs);
        kept_blocks = used_of(s, bs);
    }
    assert((kept_blocks + n) * bs == kept_blocks * bs + n * bs) by (nonlinear_arith);
    assert((kept_blocks + n) * bs <= c * bs) by (nonlinear_arith)
        requires
            kept_blocks + n <= c,
    ;
    assert(c * bs == bs * c) by (nonlinear_arith);
}

/// A file stored at `p` reads back from `p` with the same bytes, and every
/// other path keeps what it held.
pub proof fn lemma_round_trip(v: ImageView, p: Seq<char>, d: Seq<u8>)
    ensures
        with_file(v, p, d).files.contains_key(p),
        with_file(v, p, d).files[p] == d,
        forall|q: Seq<char>|
            q != p ==> (#[trigger] with_file(v, p, d).files.contains_key(q) == v.files.contains_key(q)
                && (v.files.contains_key(q) ==> with_file(v, p, d).files[q] == v.files[q])),
{
}

} // verus!
