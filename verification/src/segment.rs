use vstd::prelude::*;
use vstd::utf8::{decode_utf8, valid_utf8};

use crate::error::Error;
use crate::name::{is_nul_prefix, parse_name};

verus! {

/// The two backend protocols for anonymous shared memory. The choice is
/// fixed per target platform; the segment logic covers both.
#[derive(Clone, Copy, Debug, PartialEq, Eq)]
pub enum Backend {
    /// ioctl-backed anonymous memory: the descriptor is the only channel
    /// for recovering a segment's name and size, so the segment retains it
    /// for its whole life.
    Ioctl,
    /// POSIX named object: once the mapping exists it is the live reference
    /// to the object, so the descriptor is closed right after mapping and
    /// is not retained.
    Posix,
}

/// Whether this backend retains the descriptor for the segment's lifetime.
pub open spec fn retains_descriptor(backend: Backend) -> bool {
    backend is Ioctl
}

/// Mathematical view of a segment: the retained descriptor (if any), the
/// base address and byte length of the mapped region, and the logical name.
pub ghost struct ShmView {
    pub fd: Option<int>,
    pub addr: int,
    pub size: int,
    pub name: Seq<char>,
}

/// A shared-memory segment handle: the metadata of one mapped region.
///
/// A value of this type exists only as the outcome of a fully successful
/// construction (`map_result`): a failed construction leaves no partial
/// segment behind. Its fields never change after construction; release
/// consumes the value, so the release plan for a segment can be produced
/// exactly once.
#[derive(Debug)]
pub struct Shm {
    fd: Option<i32>,
    addr: usize,
    size: usize,
    name: String,
}

impl View for Shm {
    type V = ShmView;

    closed spec fn view(&self) -> ShmView {
        ShmView {
            fd: match self.fd {
                Some(f) => Some(f as int),
                None => None,
            },
            addr: self.addr as int,
            size: self.size as int,
            name: self.name@,
        }
    }
}

impl Shm {
    /// The segment's logical name, fixed at construction.
    pub fn name(&self) -> (r: &str)
        ensures
            r@ == self@.name,
    {
        self.name.as_str()
    }

    /// Byte length of the mapped region, fixed at construction.
    pub fn size(&self) -> (r: usize)
        ensures
            r as int == self@.size,
    {
        self.size
    }

    /// The retained descriptor, on the backend variant that retains one.
    pub fn fd(&self) -> (r: Option<i32>)
        ensures
            r is Some <==> self@.fd is Some,
            r matches Some(f) ==> self@.fd == Some(f as int),
    {
        self.fd
    }

    /// Base address of the mapped region, valid while the segment is alive.
    pub fn addr(&self) -> (r: usize)
        ensures
            r as int == self@.addr,
    {
        self.addr
    }
}

/// The decision after the backend open call, which signals failure by the
/// sentinel descriptor `-1` with errno set: the error captures the code and
/// the description rendered at the point of failure, and a valid descriptor
/// passes through unchanged.
pub open spec fn open_decision(fd: i32, errno: i32, msg: Seq<char>, r: Result<i32, Error>) -> bool {
    if fd == -1 {
        &&& r matches Err(e)
        &&& e matches Error::Errno(c, m)
        &&& c == errno
        &&& m@ == msg
    } else {
        r == Ok::<i32, Error>(fd)
    }
}

/// Apply `open_decision` to the outcome of the backend open call.
/// `errno` and `msg` are the error code and its rendered description,
/// captured immediately after the call (they are meaningful only when the
/// call failed).
pub fn open_result(fd: i32, errno: i32, msg: String) -> (r: Result<i32, Error>)
    ensures
        open_decision(fd, errno, msg@, r),
{
    if fd == -1 {
        Err(Error::Errno(errno, msg))
    } else {
        Ok(fd)
    }
}

/// What the caller owes after the mapping step: construction never leaks
/// the descriptor, so every variant says what happens to it.
#[derive(Debug)]
pub enum Mapped {
    /// Mapping failed: close the just-acquired descriptor (best effort),
    /// then report the error. No segment exists.
    CloseThenFail { fd: i32, err: Error },
    /// Mapping succeeded on the backend that does not retain descriptors:
    /// close the descriptor (a normal step, whose failure is a fatal defect,
    /// not a constructor error), then hand out the segment.
    CloseThenKeep { fd: i32, shm: Shm },
    /// Mapping succeeded on the backend that retains descriptors: the
    /// segment owns the descriptor from now on.
    Keep { shm: Shm },
}

/// The decision after the mapping call: on failure, the descriptor is
/// scheduled for closing before the error is reported; on success, the
/// segment's fields are exactly the descriptor, address, size and name at
/// hand, and the descriptor is retained if and only if the backend retains
/// descriptors.
pub open spec fn map_decision(
    backend: Backend,
    fd: i32,
    name: Seq<char>,
    size: usize,
    ok: bool,
    addr: usize,
    errno: i32,
    msg: Seq<char>,
    r: Mapped,
) -> bool {
    if !ok {
        &&& r matches Mapped::CloseThenFail { fd: f, err }
        &&& f == fd
        &&& err matches Error::Errno(c, m)
        &&& c == errno
        &&& m@ == msg
    } else if retains_descriptor(backend) {
        &&& r matches Mapped::Keep { shm }
        &&& shm@ == (ShmView {
            fd: Some(fd as int),
            addr: addr as int,
            size: size as int,
            name: name,
        })
    } else {
        &&& r matches Mapped::CloseThenKeep { fd: f, shm }
        &&& f == fd
        &&& shm@ == (ShmView { fd: None, addr: addr as int, size: size as int, name: name })
    }
}

/// Apply `map_decision` to the outcome of the mapping call. `ok` says
/// whether the call returned a valid address rather than its failure
/// sentinel; `addr` is meaningful only when it did, `errno` and `msg` only
/// when it did not.
pub fn map_result(
    backend: Backend,
    fd: i32,
    name: String,
    size: usize,
    ok: bool,
    addr: usize,
    errno: i32,
    msg: String,
) -> (r: Mapped)
    requires
        fd != -1,
    ensures
        map_decision(backend, fd, name@, size, ok, addr, errno, msg@, r),
{
    if !ok {
        Mapped::CloseThenFail { fd, err: Error::Errno(errno, msg) }
    } else {
        match backend {
            Backend::Ioctl => Mapped::Keep { shm: Shm { fd: Some(fd), addr, size, name } },
            Backend::Posix => Mapped::CloseThenKeep {
                fd,
                shm: Shm { fd: None, addr, size, name },
            },
        }
    }
}

/// Metadata recovery for attaching to a descriptor obtained externally,
/// available only on the backend that retains descriptors: the name comes
/// back through a bounded null-terminated buffer and the size through an
/// infallible query. Recovery decodes the buffer's terminator-bounded
/// prefix and passes the reported size through unchanged.
pub fn recover_metadata(name_buf: &[u8], size: usize) -> (r: Result<(String, usize), Error>)
    ensures
        forall|p: Seq<u8>|
            is_nul_prefix(name_buf@, p) ==> match r {
                Ok(m) => valid_utf8(p) && m.0@ == decode_utf8(p) && m.1 == size,
                Err(e) => e is Utf8 && !valid_utf8(p),
            },
{
    match parse_name(name_buf) {
        Ok(s) => Ok((s, size)),
        Err(e) => Err(e),
    }
}

/// The release plan for one segment: unmap this address range, and close
/// this descriptor where one was retained. Producing the plan consumes the
/// segment, so exactly one plan exists per segment.
#[derive(Debug)]
pub struct ReleasePlan {
    pub addr: usize,
    pub size: usize,
    pub fd: Option<i32>,
}

/// Turn a live segment into its release plan: the whole mapped region is
/// unmapped, and the descriptor is closed exactly where the segment
/// retained one. Both steps are owed unconditionally; their failure at the
/// operating system is a fatal defect, not a recoverable error.
pub fn release(shm: Shm) -> (r: ReleasePlan)
    ensures
        r.addr as int == shm@.addr,
        r.size as int == shm@.size,
        r.fd is Some <==> shm@.fd is Some,
        r.fd matches Some(f) ==> shm@.fd == Some(f as int),
{
    ReleasePlan { addr: shm.addr, size: shm.size, fd: shm.fd }
}

/// Law: construction accounts for the descriptor on every path. After the
/// mapping step the just-acquired descriptor is either scheduled for
/// closing (mapping failed, or the backend does not retain descriptors) or
/// owned by the completed segment (the backend retains them) — never
/// dropped silently, never both closed and retained. A failed mapping
/// leaves no segment behind.
pub proof fn lemma_descriptor_accounted(
    backend: Backend,
    fd: i32,
    name: Seq<char>,
    size: usize,
    ok: bool,
    addr: usize,
    errno: i32,
    msg: Seq<char>,
    r: Mapped,
)
    requires
        map_decision(backend, fd, name, size, ok, addr, errno, msg, r),
    ensures
        r matches Mapped::CloseThenFail { fd: f, err } ==> f == fd,
        r matches Mapped::CloseThenKeep { fd: f, shm } ==> f == fd && shm@.fd is None,
        r matches Mapped::Keep { shm } ==> shm@.fd == Some(fd as int),
        ok <==> !(r is CloseThenFail),
{
}

/// Law: a successful construction followed by release is balanced — the
/// plan unmaps exactly the region that construction mapped, and across the
/// segment's whole lifetime the descriptor is closed exactly once: at
/// construction on the backend that does not retain it, at release on the
/// backend that does.
pub proof fn lemma_create_release_balanced(
    backend: Backend,
    fd: i32,
    name: Seq<char>,
    size: usize,
    addr: usize,
    errno: i32,
    msg: Seq<char>,
    r: Mapped,
    shm: Shm,
    plan: ReleasePlan,
)
    requires
        map_decision(backend, fd, name, size, true, addr, errno, msg, r),
        (r matches Mapped::Keep { shm: s } && s == shm) || (r matches Mapped::CloseThenKeep {
            fd: f,
            shm: s,
        } && s == shm),
        plan.addr as int == shm@.addr,
        plan.size as int == shm@.size,
        plan.fd is Some <==> shm@.fd is Some,
        plan.fd matches Some(f) ==> shm@.fd == Some(f as int),
    ensures
        plan.addr == addr,
        plan.size == size,
        retains_descriptor(backend) ==> !(r is CloseThenKeep) && plan.fd == Some(fd),
        !retains_descriptor(backend) ==> plan.fd is None && (r matches Mapped::CloseThenKeep {
            fd: f,
            shm: s,
        } && f == fd),
{
}

/// Law: a segment constructed with a given name and size reports exactly
/// that name and that size. Nothing in the library mutates a live segment,
/// so both hold for the segment's whole lifetime.
pub proof fn lemma_metadata_fixed(
    backend: Backend,
    fd: i32,
    name: Seq<char>,
    size: usize,
    addr: usize,
    errno: i32,
    msg: Seq<char>,
    r: Mapped,
    shm: Shm,
)
    requires
        map_decision(backend, fd, name, size, true, addr, errno, msg, r),
        (r matches Mapped::Keep { shm: s } && s == shm) || (r matches Mapped::CloseThenKeep {
            fd: f,
            shm: s,
        } && s == shm),
    ensures
        shm@.name == name,
        shm@.size == size as int,
        shm@.addr == addr as int,
{
}

} // verus!
