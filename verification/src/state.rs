use vstd::prelude::*;

verus! {

/// How long a resolved state stays valid: for the whole session, or until the
/// next frame invalidates it.
#[derive(Debug, Clone, Copy, PartialEq, Eq, Structural)]
pub enum StateCacheType {
    Persistent,
    Volatile,
}

/// What a caller hands back for a step that asked for outside work: the bytes
/// that a read gave (`None` where the read failed), or a decrypted address.
pub enum Reply {
    Read(Option<Vec<u8>>),
    Decrypted(u64),
}

/// The contents of a reply, as plain values.
pub enum ReplyView {
    Read(Option<Seq<u8>>),
    Decrypted(u64),
}

impl View for Reply {
    type V = ReplyView;

    open spec fn view(&self) -> ReplyView {
        match self {
            Reply::Read(Some(bytes)) => ReplyView::Read(Some(bytes@)),
            Reply::Read(None) => ReplyView::Read(None),
            Reply::Decrypted(address) => ReplyView::Decrypted(*address),
        }
    }
}

} // verus!
