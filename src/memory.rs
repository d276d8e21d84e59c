//! Managed memory blocks: engine-allocated buffers that stay usable until
//! they are destroyed, and never after.
use vstd::prelude::*;
use crate::error::Error;
use crate::tensor::RknnMemSyncMode;

verus! {

/// A managed memory block as the native engine describes it.
#[derive(Debug, Copy, Clone, PartialEq, Eq, Structural)]
pub struct MemInfo {
    /// Address of the block in this process; zero when there is none.
    pub virt_addr: usize,
    /// Physical address of the block.
    pub phys_addr: u64,
    /// File descriptor for sharing the block.
    pub fd: i32,
    /// Offset of the block within the shared allocation.
    pub offset: i32,
    /// Byte length of the block.
    pub size: u32,
    /// Allocation flags.
    pub flags: u32,
}

/// Message for any use of a destroyed block.
pub open spec fn released_msg() -> Seq<char> {
    "RknnTensorMemory has been released."@
}

/// Message for a block of nonzero length without an address.
pub open spec fn null_block_msg() -> Seq<char> {
    "Tensor memory points to a null buffer."@
}

/// Message for an allocation call `op` that returned no block.
pub open spec fn alloc_failed_msg(op: Seq<char>) -> Seq<char> {
    op + " failed."@
}

/// The bytes of a live block that may be viewed.
#[derive(Debug, Copy, Clone, PartialEq, Eq, Structural)]
pub enum ByteRegion {
    /// A block of length zero: an empty view, whatever its address.
    Empty,
    /// `len` bytes from address `addr`, which is not zero.
    Span { addr: usize, len: usize },
}

/// The region that a block's description allows to be viewed.
pub open spec fn region_of(m: MemInfo) -> Result<ByteRegion, Seq<char>> {
    if m.size == 0 {
        Ok(ByteRegion::Empty)
    } else if m.virt_addr == 0 {
        Err(null_block_msg())
    } else {
        Ok(ByteRegion::Span { addr: m.virt_addr, len: m.size as usize })
    }
}

/// What a block handle is made of: its session and, while the block is
/// alive, its description.
pub struct MemModel {
    pub context: u64,
    pub raw: Option<MemInfo>,
}

/// A managed memory block of a session.
#[derive(Debug)]
pub struct RknnTensorMemory {
    context: u64,
    raw: Option<MemInfo>,
}

impl View for RknnTensorMemory {
    type V = MemModel;

    closed spec fn view(&self) -> MemModel {
        MemModel { context: self.context, raw: self.raw }
    }
}

/// The error for a destroyed block.
fn released_error() -> (e: Error)
    ensures
        e.msg() == released_msg(),
{
    Error(String::from_str("RknnTensorMemory has been released."))
}

impl RknnTensorMemory {
    /// Takes charge of the block that the native allocation call `op`
    /// returned for session `context`; no block is a failure of `op`.
    pub fn adopt(context: u64, raw: Option<MemInfo>, op: &str) -> (r: Result<Self, Error>)
        ensures
            r is Ok <==> raw is Some,
            r is Ok ==> r->Ok_0@ == (MemModel { context, raw }),
            r is Err ==> r->Err_0.msg() == alloc_failed_msg(op@),
    {
        match raw {
            Some(_) => Ok(RknnTensorMemory { context, raw }),
            Option::None => {
                let mut s = String::from_str(op);
                s.append(" failed.");
                Err(Error(s))
            },
        }
    }

    /// The session the block belongs to.
    pub fn context(&self) -> (r: u64)
        ensures
            r == self@.context,
    {
        self.context
    }

    /// Whether the block is still alive.
    pub fn is_live(&self) -> (r: bool)
        ensures
            r == self@.raw is Some,
    {
        self.raw.is_some()
    }

    /// Byte length of a live block.
    pub fn size(&self) -> (r: Result<u32, Error>)
        ensures
            r is Ok <==> self@.raw is Some,
            r is Ok ==> r->Ok_0 == self@.raw->Some_0.size,
            r is Err ==> r->Err_0.msg() == released_msg(),
    {
        match &self.raw {
            Some(m) => Ok(m.size),
            Option::None => Err(released_error()),
        }
    }

    /// File descriptor of a live block.
    pub fn fd(&self) -> (r: Result<i32, Error>)
        ensures
            r is Ok <==> self@.raw is Some,
            r is Ok ==> r->Ok_0 == self@.raw->Some_0.fd,
            r is Err ==> r->Err_0.msg() == released_msg(),
    {
        match &self.raw {
            Some(m) => Ok(m.fd),
            Option::None => Err(released_error()),
        }
    }

    /// The bytes of a live block that may be viewed: none for a block of
    /// length zero, whatever its address; a failure for a block of nonzero
    /// length without an address; otherwise exactly its reported length.
    pub fn byte_region(&self) -> (r: Result<ByteRegion, Error>)
        ensures
            match region_of_handle(self@) {
                Ok(g) => r == Ok::<ByteRegion, Error>(g),
                Err(msg) => r is Err && r->Err_0.msg() == msg,
            },
    {
        match &self.raw {
            Option::None => Err(released_error()),
            Some(m) => {
                if m.size == 0 {
                    Ok(ByteRegion::Empty)
                } else if m.virt_addr == 0 {
                    Err(Error(String::from_str("Tensor memory points to a null buffer.")))
                } else {
                    Ok(ByteRegion::Span { addr: m.virt_addr, len: m.size as usize })
                }
            },
        }
    }

    /// The native code of a cache synchronization on a live block.
    pub fn sync_request(&self, mode: RknnMemSyncMode) -> (r: Result<u32, Error>)
        ensures
            r is Ok <==> self@.raw is Some,
            r is Ok ==> r->Ok_0 == mode.code(),
            r is Err ==> r->Err_0.msg() == released_msg(),
    {
        match &self.raw {
            Some(_) => Ok(mode.to_int()),
            Option::None => Err(released_error()),
        }
    }

    /// Gives up the block: the first call hands back its description for
    /// the one native destroy call; the handle is dead afterwards and every
    /// later call hands back nothing.
    pub fn release(&mut self) -> (r: Option<MemInfo>)
        ensures
            r == old(self)@.raw,
            final(self)@ == released(old(self)@),
    {
        let r = self.raw;
        self.raw = Option::None;
        r
    }
}

/// A block of length zero can always be viewed, as an empty view, whatever
/// its address.
pub proof fn lemma_empty_block_view(m: MemInfo)
    requires
        m.size == 0,
    ensures
        region_of(m) == Ok::<ByteRegion, Seq<char>>(ByteRegion::Empty),
{
}

/// The region of a handle: a failure for a dead one.
pub open spec fn region_of_handle(h: MemModel) -> Result<ByteRegion, Seq<char>> {
    match h.raw {
        Some(m) => region_of(m),
        Option::None => Err(released_msg()),
    }
}

/// A handle after release: same session, no block.
pub open spec fn released(h: MemModel) -> MemModel {
    MemModel { context: h.context, raw: Option::None }
}

/// Once a block is released its handle holds nothing: every accessor fails
/// with the released message instead of reaching the old block, and
/// releasing again hands back nothing.
pub proof fn lemma_released_block_is_dead(h: MemModel)
    ensures
        released(h).raw is None,
        region_of_handle(released(h)) == Err::<ByteRegion, Seq<char>>(released_msg()),
        released(released(h)) == released(h),
{
}

} // verus!
