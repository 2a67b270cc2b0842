use vstd::prelude::*;
use vstd::string::*;

verus! {

/// Name of the engine's in-memory file system.
pub const MEM_VFS: &'static str = "memvfs";

/// Name of the engine's persistent pooled file system.
pub const OPFS_VFS: &'static str = "opfs";

/// Directory that holds the persistent pool.
pub const OPFS_VFS_DIR: &'static str = "sqlight-sahpool";

/// Free file slots that the persistent pool must keep before a database is opened.
pub const CAPACITY_MARGIN: u32 = 2;

/// File slots that the persistent pool grows by when it runs short.
pub const CAPACITY_STEP: u32 = 6;

pub open spec fn vfs_name(persist: bool) -> Seq<char> {
    if persist {
        OPFS_VFS@
    } else {
        MEM_VFS@
    }
}

/// The URI that opens `filename` on the file system chosen by `persist`.
pub open spec fn uri_of(filename: Seq<char>, persist: bool) -> Seq<char> {
    "file:"@ + filename + "?vfs="@ + vfs_name(persist)
}

/// Builds `file:<filename>?vfs=<name>`, naming the persistent pool when `persist`
/// holds and the memory file system otherwise.
pub fn uri(filename: &str, persist: bool) -> (r: String)
    ensures
        r@ == uri_of(filename@, persist),
{
    let mut r = String::from_str("file:");
    r.append(filename);
    r.append("?vfs=");
    if persist {
        r.append(OPFS_VFS);
    } else {
        r.append(MEM_VFS);
    }
    r
}

/// How many file slots to add to a pool of `capacity` slots of which `used` are
/// taken: a fixed step when fewer than the margin remain, nothing otherwise.
pub open spec fn growth_for(capacity: u32, used: u32) -> u32 {
    if (capacity as int) - (used as int) < CAPACITY_MARGIN as int {
        CAPACITY_STEP
    } else {
        0
    }
}

pub fn capacity_growth(capacity: u32, used: u32) -> (r: u32)
    ensures
        r == growth_for(capacity, used),
{
    if used >= capacity || capacity - used < CAPACITY_MARGIN {
        CAPACITY_STEP
    } else {
        0
    }
}

/// How many file slots to add before opening a database: only the persistent pool
/// grows, and only when it runs short.
pub fn open_growth(persist: bool, capacity: u32, used: u32) -> (r: u32)
    ensures
        r == if persist {
            growth_for(capacity, used)
        } else {
            0
        },
{
    if persist {
        capacity_growth(capacity, used)
    } else {
        0
    }
}

/// Why a byte image was refused as a database.
#[derive(Debug, Clone, Copy, PartialEq, Eq, Structural)]
pub enum ImportDbError {
    InvalidDbSize,
    InvalidHeader,
    InvalidPageSize,
}

impl ImportDbError {
    /// The text that describes this error.
    pub fn message(&self) -> (r: String)
        ensures
            r@ == self.message_spec(),
    {
        match self {
            ImportDbError::InvalidDbSize => String::from_str("Byte array size is invalid for an SQLite db."),
            ImportDbError::InvalidHeader => String::from_str("Input does not contain an SQLite database header."),
            ImportDbError::InvalidPageSize => String::from_str(
                "Page size must be a power of two between 512 and 65536 inclusive",
            ),
        }
    }

    pub open spec fn message_spec(&self) -> Seq<char> {
        match self {
            ImportDbError::InvalidDbSize => "Byte array size is invalid for an SQLite db."@,
            ImportDbError::InvalidHeader => "Input does not contain an SQLite database header."@,
            ImportDbError::InvalidPageSize => "Page size must be a power of two between 512 and 65536 inclusive"@,
        }
    }
}

/// The bytes of "SQLite format 3", which every database image starts with.
pub open spec fn signature() -> Seq<u8> {
    seq![83u8, 81u8, 76u8, 105u8, 116u8, 101u8, 32u8, 102u8, 111u8, 114u8, 109u8, 97u8, 116u8, 32u8, 51u8]
}

/// The page size that a header records big-endian in its bytes 16 and 17, where
/// the value 1 stands for 65536.
pub open spec fn header_page_size(b: Seq<u8>) -> int
    recommends
        b.len() >= 18,
{
    let raw = b[16] as int * 256 + b[17] as int;
    if raw == 1 {
        65536
    } else {
        raw
    }
}

/// What checking an image gives: its length must be a positive multiple of 512,
/// it must start with the signature, and then its header's page size is returned.
pub open spec fn import_check(b: Seq<u8>) -> Result<int, ImportDbError> {
    if b.len() < 512 || b.len() % 512 != 0 {
        Err(ImportDbError::InvalidDbSize)
    } else if b.subrange(0, 15) != signature() {
        Err(ImportDbError::InvalidHeader)
    } else {
        Ok(header_page_size(b))
    }
}

/// Checks that `bytes` can be a database image and reads its page size.
pub fn check_import_db(bytes: &[u8]) -> (r: Result<usize, ImportDbError>)
    ensures
        r is Ok <==> import_check(bytes@) is Ok,
        r is Ok ==> r->Ok_0 as int == import_check(bytes@)->Ok_0,
        r is Err ==> r->Err_0 == import_check(bytes@)->Err_0,
{
    let length = bytes.len();
    if length < 512 || length % 512 != 0 {
        return Err(ImportDbError::InvalidDbSize);
    }
    let sig: [u8; 15] = [83, 81, 76, 105, 116, 101, 32, 102, 111, 114, 109, 97, 116, 32, 51];
    assert(sig@ =~= signature());
    let mut i: usize = 0;
    while i < 15
        invariant
            i <= 15,
            bytes@.len() >= 512,
            bytes@.len() % 512 == 0,
            sig@ == signature(),
            bytes@.subrange(0, i as int) == signature().subrange(0, i as int),
        decreases 15 - i,
    {
        if bytes[i] != sig[i] {
            assert(bytes@.subrange(0, 15)[i as int] == bytes@[i as int]);
            assert(sig@[i as int] == signature()[i as int]);
            assert(bytes@.subrange(0, 15) != signature());
            return Err(ImportDbError::InvalidHeader);
        }
        assert(bytes@.subrange(0, i as int + 1) =~= signature().subrange(0, i as int + 1));
        i = i + 1;
    }
    assert(signature().subrange(0, 15) =~= signature());
    let raw: usize = bytes[16] as usize * 256 + bytes[17] as usize;
    if raw == 1 {
        Ok(65536)
    } else {
        Ok(raw)
    }
}

} // verus!
