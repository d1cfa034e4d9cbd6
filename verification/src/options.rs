use nix::fcntl::OFlag;
use nix::sys::mman::{MapFlags, ProtFlags};
use nix::sys::stat::Mode;
use vstd::prelude::*;
use vstd::std_specs::convert::FromSpecImpl;

verus! {

/// `nix::fcntl::OFlag`, the flags a file is opened with.
#[verifier::external_type_specification]
#[verifier::external_body]
pub struct ExOFlag(OFlag);

/// `nix::sys::stat::Mode`, the permission bits of a file.
#[verifier::external_type_specification]
#[verifier::external_body]
pub struct ExMode(Mode);

/// `nix::sys::mman::ProtFlags`, the memory protection of a mapping.
#[verifier::external_type_specification]
#[verifier::external_body]
pub struct ExProtFlags(ProtFlags);

/// `nix::sys::mman::MapFlags`, the way a mapping is shared.
#[verifier::external_type_specification]
#[verifier::external_body]
pub struct ExMapFlags(MapFlags);

/// The bits that `OFlag::bits` returns for `flags`.
pub uninterp spec fn open_flag_bits(flags: OFlag) -> i32;

/// The bits that `Mode::bits` returns for `mode`.
pub uninterp spec fn mode_bits(mode: Mode) -> u32;

/// The bits that `ProtFlags::bits` returns for `flags`.
pub uninterp spec fn prot_flag_bits(flags: ProtFlags) -> i32;

/// The bits that `MapFlags::bits` returns for `flags`.
pub uninterp spec fn map_flag_bits(flags: MapFlags) -> i32;

/// Open for reading only: the value of `O_RDONLY` on Linux.
pub const O_RDONLY: i32 = 0;

/// Open for reading and writing: the value of `O_RDWR` on Linux.
pub const O_RDWR: i32 = 2;

/// Read permission for the owner: the value of `S_IRUSR` on Linux.
pub const S_IRUSR: u32 = 0x100;

/// Write permission for the owner: the value of `S_IWUSR` on Linux.
pub const S_IWUSR: u32 = 0x080;

/// Pages can be read: the value of `PROT_READ` on Linux.
pub const PROT_READ: i32 = 1;

/// Pages can be written: the value of `PROT_WRITE` on Linux.
pub const PROT_WRITE: i32 = 2;

/// Writes reach the file and other mappers: the value of `MAP_SHARED` on
/// Linux.
pub const MAP_SHARED: i32 = 1;

/// Writes stay in a private copy: the value of `MAP_PRIVATE` on Linux.
pub const MAP_PRIVATE: i32 = 2;

/// `OFlag::O_RDONLY`, which nix takes from libc's constant of that name.
#[verifier::external_body]
fn open_read_only() -> (r: OFlag)
    ensures
        open_flag_bits(r) == O_RDONLY,
{
    OFlag::O_RDONLY
}

/// `OFlag::O_RDWR`, which nix takes from libc's constant of that name.
#[verifier::external_body]
fn open_read_write() -> (r: OFlag)
    ensures
        open_flag_bits(r) == O_RDWR,
{
    OFlag::O_RDWR
}

/// `Mode::S_IRUSR`, which nix takes from libc's constant of that name.
#[verifier::external_body]
fn owner_read() -> (r: Mode)
    ensures
        mode_bits(r) == S_IRUSR,
{
    Mode::S_IRUSR
}

/// `Mode::S_IWUSR`, which nix takes from libc's constant of that name.
#[verifier::external_body]
fn owner_write() -> (r: Mode)
    ensures
        mode_bits(r) == S_IWUSR,
{
    Mode::S_IWUSR
}

/// The `|` of two `Mode` values: the flags of both, bit by bit.
#[verifier::external_body]
fn mode_union(a: Mode, b: Mode) -> (r: Mode)
    ensures
        mode_bits(r) == mode_bits(a) | mode_bits(b),
{
    a | b
}

/// `ProtFlags::PROT_READ`, which nix takes from libc's constant of that name.
#[verifier::external_body]
fn pages_read() -> (r: ProtFlags)
    ensures
        prot_flag_bits(r) == PROT_READ,
{
    ProtFlags::PROT_READ
}

/// `ProtFlags::PROT_WRITE`, which nix takes from libc's constant of that
/// name.
#[verifier::external_body]
fn pages_write() -> (r: ProtFlags)
    ensures
        prot_flag_bits(r) == PROT_WRITE,
{
    ProtFlags::PROT_WRITE
}

/// The `|` of two `ProtFlags` values: the flags of both, bit by bit.
#[verifier::external_body]
fn prot_union(a: ProtFlags, b: ProtFlags) -> (r: ProtFlags)
    ensures
        prot_flag_bits(r) == prot_flag_bits(a) | prot_flag_bits(b),
{
    a | b
}

/// `MapFlags::MAP_SHARED`, which nix takes from libc's constant of that name.
#[verifier::external_body]
fn map_shared() -> (r: MapFlags)
    ensures
        map_flag_bits(r) == MAP_SHARED,
{
    MapFlags::MAP_SHARED
}

/// `MapFlags::MAP_PRIVATE`, which nix takes from libc's constant of that
/// name.
#[verifier::external_body]
fn map_private() -> (r: MapFlags)
    ensures
        map_flag_bits(r) == MAP_PRIVATE,
{
    MapFlags::MAP_PRIVATE
}

/// How a file is opened and mapped. There is no write-only mode: a file is
/// opened read-only, or for reading and writing. Neither mode creates a file
/// that does not exist.
#[derive(Debug, Clone, Copy, PartialEq, Eq, Structural)]
pub enum OpenOptions {
    /// The file is read, never written: its pages are mapped read-only and
    /// private.
    ReadOnly,
    /// The file is read and written: its pages are mapped readable,
    /// writable and shared, so that writes reach the file.
    ReadWrite,
}

impl OpenOptions {
    /// Whether writes through the mapping are permitted.
    pub open spec fn writable(self) -> bool {
        self == OpenOptions::ReadWrite
    }

    /// The bits of the flags the file is opened with.
    pub open spec fn access_bits(self) -> i32 {
        match self {
            OpenOptions::ReadOnly => O_RDONLY,
            OpenOptions::ReadWrite => O_RDWR,
        }
    }

    /// The permission bits handed to the call that opens the file: read and
    /// write for the owner, whatever the mode. They matter only where that
    /// call would create the file, which these flags never ask for.
    pub open spec fn permission_bits(self) -> u32 {
        S_IRUSR | S_IWUSR
    }

    /// The bits of the memory protection of the mapping.
    pub open spec fn protection_bits(self) -> i32 {
        match self {
            OpenOptions::ReadOnly => PROT_READ,
            OpenOptions::ReadWrite => PROT_READ | PROT_WRITE,
        }
    }

    /// The bits of the sharing of the mapping.
    pub open spec fn sharing_bits(self) -> i32 {
        match self {
            OpenOptions::ReadOnly => MAP_PRIVATE,
            OpenOptions::ReadWrite => MAP_SHARED,
        }
    }
}

/// A flag set is opaque to the verifier, so there is no value to name in
/// `from_spec`: what `from` returns is stated by its `ensures`, over the bits.
impl FromSpecImpl<OpenOptions> for OFlag {
    open spec fn obeys_from_spec() -> bool {
        false
    }

    open spec fn from_spec(value: OpenOptions) -> Self {
        arbitrary()
    }
}

impl From<OpenOptions> for OFlag {
    /// The flags to open the file with under `value`.
    fn from(value: OpenOptions) -> (r: Self)
        ensures
            open_flag_bits(r) == value.access_bits(),
    {
        match value {
            OpenOptions::ReadOnly => open_read_only(),
            OpenOptions::ReadWrite => open_read_write(),
        }
    }
}

/// As for `OFlag`: the `ensures` of `from` states the result.
impl FromSpecImpl<OpenOptions> for Mode {
    open spec fn obeys_from_spec() -> bool {
        false
    }

    open spec fn from_spec(value: OpenOptions) -> Self {
        arbitrary()
    }
}

impl From<OpenOptions> for Mode {
    /// The permission bits to open the file with under `value`.
    fn from(value: OpenOptions) -> (r: Self)
        ensures
            mode_bits(r) == value.permission_bits(),
    {
        mode_union(owner_read(), owner_write())
    }
}

/// As for `OFlag`: the `ensures` of `from` states the result.
impl FromSpecImpl<OpenOptions> for ProtFlags {
    open spec fn obeys_from_spec() -> bool {
        false
    }

    open spec fn from_spec(value: OpenOptions) -> Self {
        arbitrary()
    }
}

impl From<OpenOptions> for ProtFlags {
    /// The memory protection to map the file with under `value`.
    fn from(value: OpenOptions) -> (r: Self)
        ensures
            prot_flag_bits(r) == value.protection_bits(),
    {
        match value {
            OpenOptions::ReadOnly => pages_read(),
            OpenOptions::ReadWrite => prot_union(pages_read(), pages_write()),
        }
    }
}

/// As for `OFlag`: the `ensures` of `from` states the result.
impl FromSpecImpl<OpenOptions> for MapFlags {
    open spec fn obeys_from_spec() -> bool {
        false
    }

    open spec fn from_spec(value: OpenOptions) -> Self {
        arbitrary()
    }
}

impl From<OpenOptions> for MapFlags {
    /// The sharing to map the file with under `value`.
    fn from(value: OpenOptions) -> (r: Self)
        ensures
            map_flag_bits(r) == value.sharing_bits(),
    {
        match value {
            OpenOptions::ReadOnly => map_private(),
            OpenOptions::ReadWrite => map_shared(),
        }
    }
}

} // verus!
