use vstd::prelude::*;

verus! {

/// A reference to a pointee, split into the pointee's address and the extra
/// descriptor needed to rebuild the reference.
///
/// Address 0 is the null address: composing it gives no reference.
pub trait MetaData: Sized {
    /// The descriptor: nothing for a fixed-size pointee, a length for a
    /// slice, a dispatch-table address for a trait object.
    type Data: Copy;

    /// The pointee's address.
    spec fn addr(self) -> usize;

    /// The pointee's descriptor.
    spec fn meta(self) -> Self::Data;

    /// The reference with the given address and descriptor.
    spec fn from_parts(addr: usize, meta: Self::Data) -> Self;

    /// The descriptor a pointer holds before it is set.
    spec fn null_data() -> Self::Data;

    proof fn lemma_parts(self, addr: usize, meta: Self::Data)
        ensures
            Self::from_parts(self.addr(), self.meta()) == self,
            Self::from_parts(addr, meta).addr() == addr,
            Self::from_parts(addr, meta).meta() == meta,
    ;

    /// The descriptor a pointer holds before it is set.
    fn default_data() -> (r: Self::Data)
        ensures
            r == Self::null_data(),
    ;

    /// Splits a reference into address and descriptor.
    fn decompose(&self) -> (r: (usize, Self::Data))
        ensures
            r == (self.addr(), self.meta()),
    ;

    /// Rebuilds a reference from address and descriptor; a null address gives `None`.
    fn compose(addr: usize, meta: Self::Data) -> (r: Option<Self>)
        ensures
            r == (if addr == 0 { None } else { Some(Self::from_parts(addr, meta)) }),
    ;
}

/// Splitting a non-null reference and rebuilding it from its parts gives the
/// same reference, descriptor (a slice's length) included.
pub proof fn lemma_descriptor_fidelity<T: MetaData>(value: T)
    requires
        value.addr() != 0,
    ensures
        (if value.addr() == 0 { None } else { Some(T::from_parts(value.addr(), value.meta())) })
            == Some(value),
{
    value.lemma_parts(value.addr(), value.meta());
}

/// The descriptor of a fixed-size pointee, which needs none.
#[derive(Clone, Copy, Debug, PartialEq, Eq, Structural)]
pub struct NoMeta;

/// A reference to a fixed-size pointee: an address alone.
#[derive(Clone, Copy, Debug, PartialEq, Eq, Structural)]
pub struct Thin {
    pub addr: usize,
}

/// A reference to a slice: the address of its first element and its length.
#[derive(Clone, Copy, Debug, PartialEq, Eq, Structural)]
pub struct Slice {
    pub addr: usize,
    pub len: usize,
}

/// A reference to a dynamically dispatched value: the address of the data
/// and the address of its dispatch table.
#[derive(Clone, Copy, Debug, PartialEq, Eq, Structural)]
pub struct TraitObject {
    pub data: usize,
    pub vtable: usize,
}

impl MetaData for Thin {
    type Data = NoMeta;

    open spec fn addr(self) -> usize {
        self.addr
    }

    open spec fn meta(self) -> NoMeta {
        NoMeta
    }

    open spec fn from_parts(addr: usize, meta: NoMeta) -> Thin {
        Thin { addr }
    }

    open spec fn null_data() -> NoMeta {
        NoMeta
    }

    proof fn lemma_parts(self, addr: usize, meta: NoMeta) {
    }

    fn default_data() -> (r: NoMeta) {
        NoMeta
    }

    fn decompose(&self) -> (r: (usize, NoMeta)) {
        (self.addr, NoMeta)
    }

    fn compose(addr: usize, meta: NoMeta) -> (r: Option<Thin>) {
        if addr == 0 {
            None
        } else {
            Some(Thin { addr })
        }
    }
}

impl MetaData for Slice {
    type Data = usize;

    open spec fn addr(self) -> usize {
        self.addr
    }

    open spec fn meta(self) -> usize {
        self.len
    }

    open spec fn from_parts(addr: usize, meta: usize) -> Slice {
        Slice { addr, len: meta }
    }

    open spec fn null_data() -> usize {
        0
    }

    proof fn lemma_parts(self, addr: usize, meta: usize) {
    }

    fn default_data() -> (r: usize) {
        0
    }

    fn decompose(&self) -> (r: (usize, usize)) {
        (self.addr, self.len)
    }

    fn compose(addr: usize, meta: usize) -> (r: Option<Slice>) {
        if addr == 0 {
            None
        } else {
            Some(Slice { addr, len: meta })
        }
    }
}

impl MetaData for TraitObject {
    type Data = usize;

    open spec fn addr(self) -> usize {
        self.data
    }

    open spec fn meta(self) -> usize {
        self.vtable
    }

    open spec fn from_parts(addr: usize, meta: usize) -> TraitObject {
        TraitObject { data: addr, vtable: meta }
    }

    open spec fn null_data() -> usize {
        0
    }

    proof fn lemma_parts(self, addr: usize, meta: usize) {
    }

    fn default_data() -> (r: usize) {
        0
    }

    fn decompose(&self) -> (r: (usize, usize)) {
        (self.data, self.vtable)
    }

    fn compose(addr: usize, meta: usize) -> (r: Option<TraitObject>) {
        if addr == 0 {
            None
        } else {
            Some(TraitObject { data: addr, vtable: meta })
        }
    }
}

} // verus!
