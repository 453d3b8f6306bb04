use vstd::prelude::*;

verus! {

/// Header of a structure in an OpenXR next-chain: its structure type, and the position
/// in the chain of the structure that follows it (none: it ends the chain).
#[derive(Clone, Copy, Debug, PartialEq, Eq, Structural)]
pub struct OxrNextChainStructBase {
    pub ty: i32,
    pub next: Option<usize>,
}

/// A structure that can be chained into the create info of an OpenXR session.
pub trait OxrSessionCreateNextProvider {
    /// The OpenXR structure type of this structure.
    spec fn spec_structure_type(&self) -> i32;

    /// The OpenXR structure type of this structure.
    fn structure_type(&self) -> (ty: i32)
        ensures
            ty == self.spec_structure_type(),
    ;
}

/// The chain of extension structures handed to OpenXR when a session is created.
pub struct OxrSessionCreateNextChain {
    structs: Vec<Box<dyn OxrSessionCreateNextProvider>>,
    headers: Vec<OxrNextChainStructBase>,
}

/// Whether headers form one linked chain in order: each links to the next, the last to none.
pub open spec fn well_linked(h: Seq<OxrNextChainStructBase>) -> bool {
    forall|i: int|
        0 <= i < h.len() ==> #[trigger] h[i].next == (if i + 1 < h.len() {
            Some((i + 1) as usize)
        } else {
            None::<usize>
        })
}

impl OxrSessionCreateNextChain {
    /// The headers of the chained structures, in order.
    pub closed spec fn headers(&self) -> Seq<OxrNextChainStructBase> {
        self.headers@
    }

    /// The chained structures, in order.
    pub closed spec fn structs(&self) -> Seq<Box<dyn OxrSessionCreateNextProvider>> {
        self.structs@
    }

    /// Whether the chain is consistent: its headers are linked in order, one per structure.
    pub closed spec fn wf(&self) -> bool {
        &&& well_linked(self.headers@)
        &&& self.structs@.len() == self.headers@.len()
    }

    /// An empty chain.
    pub fn new() -> (c: OxrSessionCreateNextChain)
        ensures
            c.wf(),
            c.headers().len() == 0,
            c.structs().len() == 0,
    {
        OxrSessionCreateNextChain { structs: Vec::new(), headers: Vec::new() }
    }

    /// Appends a structure to the end of the chain, linking the previous last structure to it.
    /// The new header carries the structure's type, and the structure is kept as the new last
    /// entry of `structs()`; which value that entry is is not stated, since Verus relates no
    /// value to the trait object it is boxed into.
    pub fn push<T: OxrSessionCreateNextProvider + 'static>(&mut self, info_struct: T)
        requires
            old(self).wf(),
            old(self).headers().len() < usize::MAX,
        ensures
            final(self).wf(),
            final(self).headers().len() == old(self).headers().len() + 1,
            forall|i: int| 0 <= i < old(self).headers().len() - 1 ==> #[trigger] final(self).headers()[i] == old(self).headers()[i],
            final(self).headers().last().next is None,
            final(self).headers().last().ty == info_struct.spec_structure_type(),
            final(self).structs().len() == final(self).headers().len(),
            final(self).structs().drop_last() == old(self).structs(),
            old(self).headers().len() > 0 ==> final(self).headers()[old(self).headers().len() - 1]
                == (OxrNextChainStructBase {
                ty: old(self).headers().last().ty,
                next: Some(old(self).headers().len() as usize),
            }),
    {
        let ty = info_struct.structure_type();
        let n = self.headers.len();
        if n > 0 {
            let last = self.headers[n - 1];
            self.headers.set(n - 1, OxrNextChainStructBase { ty: last.ty, next: Some(n) });
        }
        self.headers.push(OxrNextChainStructBase { ty, next: None });
        let ghost s0 = self.structs@;
        assert(s0 == old(self).structs@);
        let b: Box<dyn OxrSessionCreateNextProvider> = Box::new(info_struct);
        self.structs.push(b);
        proof {
            vstd::seq::axiom_seq_push_len(s0, b);
            assert forall|i: int| 0 <= i < s0.len() implies #[trigger] self.structs@.drop_last()[i] == s0[i] by {
                vstd::seq::axiom_seq_push_index_different(s0, b, i);
            }
            assert(self.structs@.drop_last() =~= s0);
            let h = self.headers@;
            let o = old(self).headers@;
            assert forall|i: int| 0 <= i < h.len() implies #[trigger] h[i].next == (if i + 1 < h.len() {
                Some((i + 1) as usize)
            } else {
                None::<usize>
            }) by {
                if i < n - 1 {
                    assert(h[i] == o[i]);
                    assert(o[i].next == Some((i + 1) as usize));
                }
            }
            assert(well_linked(h));
        }
    }

    /// The header of the first structure of the chain, if any.
    pub fn chain(&self) -> (first: Option<&OxrNextChainStructBase>)
        ensures
            match first {
                Some(h) => self.headers().len() > 0 && *h == self.headers()[0],
                None => self.headers().len() == 0,
            },
    {
        if self.headers.len() == 0 {
            None
        } else {
            Some(&self.headers[0])
        }
    }
}

impl Default for OxrSessionCreateNextChain {
    fn default() -> (c: OxrSessionCreateNextChain)
        ensures
            c.wf(),
            c.headers().len() == 0,
    {
        OxrSessionCreateNextChain::new()
    }
}

} // verus!

