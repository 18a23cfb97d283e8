//! Texture residency: which toolkit textures are registered, under which
//! handle, and which of them are ready to be drawn with.

use crate::draw_data::TextureId;
use vstd::prelude::*;

verus! {

/// What a registration asks of the caller.
#[derive(Clone, Copy, Debug, PartialEq, Eq, Structural)]
pub struct Registration {
    /// The handle of the texture.
    pub id: TextureId,
    /// Whether the texture is new and its upload has to be started.
    pub upload: bool,
}

/// The registered textures, by handle: handle `i` stands for the texture
/// reference `refs[i]`, and `ready[i]` says whether the device holds it.
#[derive(Debug)]
pub struct TextureTracker {
    refs: Vec<u32>,
    ready: Vec<bool>,
}

/// The references after registering `r`: unchanged if `r` is among them, else
/// with `r` at the end.
pub open spec fn refs_after(refs: Seq<u32>, r: u32) -> Seq<u32> {
    if refs.contains(r) {
        refs
    } else {
        refs.push(r)
    }
}

/// The readiness flags after registering `r`: a new texture is not ready.
pub open spec fn ready_after(refs: Seq<u32>, ready: Seq<bool>, r: u32) -> Seq<bool> {
    if refs.contains(r) {
        ready
    } else {
        ready.push(false)
    }
}

/// The handle that registering `r` gives.
pub open spec fn id_after(refs: Seq<u32>, r: u32) -> int {
    if refs.contains(r) {
        refs.index_of(r)
    } else {
        refs.len() as int
    }
}

/// The handles below `n` whose texture is not ready, in increasing order.
pub open spec fn pending_of(ready: Seq<bool>, n: int) -> Seq<TextureId>
    decreases n,
{
    if n <= 0 {
        Seq::empty()
    } else if !ready[n - 1] {
        pending_of(ready, n - 1).push(TextureId((n - 1) as u32))
    } else {
        pending_of(ready, n - 1)
    }
}

impl TextureTracker {
    /// The registered texture references, in the order of their handles.
    pub closed spec fn refs(&self) -> Seq<u32> {
        self.refs@
    }

    /// For each handle, whether its texture is ready.
    pub closed spec fn ready(&self) -> Seq<bool> {
        self.ready@
    }

    /// Every reference has one handle and one readiness flag, and the handles
    /// fit 32 bits.
    pub open spec fn wf(&self) -> bool {
        &&& self.refs().len() == self.ready().len()
        &&& self.refs().len() <= u32::MAX
        &&& self.refs().no_duplicates()
    }

    /// Whether `id` is registered and its texture is ready.
    pub open spec fn is_ready_spec(&self, id: TextureId) -> bool {
        id.0 < self.ready().len() && self.ready()[id.0 as int]
    }

    /// A tracker with no texture registered.
    pub fn new() -> (out: Self)
        ensures
            out.wf(),
            out.refs() == Seq::<u32>::empty(),
            out.ready() == Seq::<bool>::empty(),
    {
        TextureTracker { refs: Vec::new(), ready: Vec::new() }
    }

    /// Number of registered textures.
    pub fn len(&self) -> (n: usize)
        ensures
            n == self.refs().len(),
    {
        self.refs.len()
    }

    /// The handle of texture reference `r`, if it is registered.
    pub fn lookup(&self, r: u32) -> (out: Option<TextureId>)
        requires
            self.wf(),
        ensures
            out is Some <==> self.refs().contains(r),
            out matches Some(id) ==> id.0 == self.refs().index_of(r),
    {
        let mut i: usize = 0;
        while i < self.refs.len()
            invariant
                i <= self.refs.len(),
                self.wf(),
                forall|j: int| 0 <= j < i ==> self.refs@[j] != r,
            decreases self.refs.len() - i,
        {
            if self.refs[i] == r {
                proof {
                    let k = self.refs@.index_of(r);
                    assert(self.refs@[i as int] == r);
                    assert(self.refs@.contains(r));
                    assert(k == i);
                }
                return Some(TextureId(i as u32));
            }
            i += 1;
        }
        None
    }

    /// Registers texture reference `r` and gives its handle. A reference
    /// that is registered already keeps its handle and nothing changes; a new
    /// one gets the next handle, is not ready, and its upload is asked for.
    /// Fails only when `r` is new and all 32-bit handles are taken.
    pub fn register(&mut self, r: u32) -> (out: Option<Registration>)
        requires
            old(self).wf(),
        ensures
            final(self).wf(),
            out is Some <==> (old(self).refs().contains(r) || old(self).refs().len() < u32::MAX),
            out is None ==> *final(self) == *old(self),
            out matches Some(reg) ==> {
                &&& reg.id.0 == id_after(old(self).refs(), r)
                &&& reg.upload == !old(self).refs().contains(r)
                &&& final(self).refs() == refs_after(old(self).refs(), r)
                &&& final(self).ready() == ready_after(old(self).refs(), old(self).ready(), r)
            },
    {
        match self.lookup(r) {
            Some(id) => Some(Registration { id, upload: false }),
            None => {
                let n: usize = self.refs.len();
                if n >= u32::MAX as usize {
                    return None;
                }
                self.refs.push(r);
                self.ready.push(false);
                proof {
                    lemma_register_idempotent(old(self).refs(), r);
                }
                Some(Registration { id: TextureId(n as u32), upload: true })
            },
        }
    }

    /// Whether `id` is registered and its texture is ready.
    pub fn is_ready(&self, id: TextureId) -> (out: bool)
        requires
            self.wf(),
        ensures
            out == self.is_ready_spec(id),
    {
        let i: usize = id.0 as usize;
        i < self.ready.len() && self.ready[i]
    }

    /// The texture reference that `id` stands for, if `id` is registered.
    pub fn reference(&self, id: TextureId) -> (out: Option<u32>)
        requires
            self.wf(),
        ensures
            out == if id.0 < self.refs().len() {
                Some(self.refs()[id.0 as int])
            } else {
                None
            },
    {
        let i: usize = id.0 as usize;
        if i < self.refs.len() {
            Some(self.refs[i])
        } else {
            None
        }
    }

    /// The registered handles whose texture is not ready, in increasing
    /// order: the uploads that are still open.
    pub fn pending(&self) -> (out: Vec<TextureId>)
        requires
            self.wf(),
        ensures
            out@ == pending_of(self.ready(), self.ready().len() as int),
    {
        let mut out: Vec<TextureId> = Vec::new();
        let mut i: usize = 0;
        while i < self.ready.len()
            invariant
                i <= self.ready.len(),
                self.wf(),
                out@ == pending_of(self.ready@, i as int),
            decreases self.ready.len() - i,
        {
            if !self.ready[i] {
                out.push(TextureId(i as u32));
            }
            i += 1;
        }
        out
    }

    /// Takes note of what the device holds now: the registered textures
    /// among `loaded` are ready, and no other is. A texture becomes ready
    /// when its upload has finished, and stops being ready when the device
    /// has given it up. Registrations are kept.
    pub fn maintain(&mut self, loaded: &Vec<TextureId>)
        requires
            old(self).wf(),
        ensures
            final(self).wf(),
            final(self).refs() == old(self).refs(),
            forall|id: TextureId| #[trigger]
                final(self).is_ready_spec(id) == (id.0 < old(self).refs().len()
                    && loaded@.contains(id)),
    {
        let mut k: usize = 0;
        while k < self.ready.len()
            invariant
                k <= self.ready.len(),
                self.wf(),
                self.refs() == old(self).refs(),
                forall|j: int| 0 <= j < k ==> !self.ready@[j],
            decreases self.ready.len() - k,
        {
            self.ready.set(k, false);
            k += 1;
        }
        let mut i: usize = 0;
        while i < loaded.len()
            invariant
                i <= loaded.len(),
                self.wf(),
                self.refs() == old(self).refs(),
                forall|id: TextureId| #[trigger]
                    self.is_ready_spec(id) == (id.0 < old(self).refs().len() && loaded@.take(
                        i as int,
                    ).contains(id)),
            decreases loaded.len() - i,
        {
            let done: TextureId = loaded[i];
            let k: usize = done.0 as usize;
            let ghost before = *self;
            if k < self.ready.len() {
                self.ready.set(k, true);
            }
            i += 1;
            proof {
                let now = loaded@.take(i as int);
                let was = loaded@.take(i - 1);
                assert(now =~= was.push(done));
                assert forall|id: TextureId| #[trigger]
                    self.is_ready_spec(id) == (id.0 < old(self).refs().len() && now.contains(
                        id,
                    )) by {
                    assert(before.is_ready_spec(id) == (id.0 < old(self).refs().len()
                        && was.contains(id)));
                    if was.contains(id) {
                        let w = choose|w: int| 0 <= w < was.len() && was[w] == id;
                        assert(now[w] == id);
                    }
                    if id == done {
                        assert(now[i - 1] == id);
                    }
                    if now.contains(id) && id != done {
                        let w = choose|w: int| 0 <= w < now.len() && now[w] == id;
                        assert(was[w] == id);
                    }
                }
            }
        }
        assert(loaded@.take(loaded@.len() as int) =~= loaded@);
    }
}

/// Registration is idempotent: once a reference is registered, registering
/// it again gives the same handle, asks for no upload, and changes nothing.
pub proof fn lemma_register_idempotent(refs: Seq<u32>, r: u32)
    requires
        refs.no_duplicates(),
    ensures
        refs_after(refs, r).no_duplicates(),
        refs_after(refs, r).contains(r),
        id_after(refs_after(refs, r), r) == id_after(refs, r),
        0 <= id_after(refs, r) < refs_after(refs, r).len(),
        refs_after(refs, r)[id_after(refs, r)] == r,
        refs_after(refs_after(refs, r), r) == refs_after(refs, r),
        forall|ready: Seq<bool>|
            ready_after(refs_after(refs, r), #[trigger] ready_after(refs, ready, r), r)
                == ready_after(refs, ready, r),
{
    let after = refs_after(refs, r);
    if refs.contains(r) {
        let k = refs.index_of(r);
        assert(refs[k] == r);
    } else {
        assert(after[refs.len() as int] == r);
        assert(after.contains(r));
        let k = after.index_of(r);
        assert(after[k] == r);
        assert(k == refs.len()) by {
            if k < refs.len() {
                assert(refs[k] == r);
                assert(refs.contains(r));
            }
        }
        assert forall|a: int, b: int| 0 <= a < after.len() && 0 <= b < after.len() && a != b
            implies after[a] != after[b] by {
            if a == refs.len() {
                assert(refs[b] == after[b]);
                assert(refs.contains(after[b]) );
            } else if b == refs.len() {
                assert(refs[a] == after[a]);
                assert(refs.contains(after[a]));
            }
        }
    }
}

/// The open uploads are the registered textures that are not ready, each
/// once.
pub proof fn lemma_pending_are_unready(ready: Seq<bool>, n: int, id: TextureId)
    requires
        0 <= n <= ready.len(),
        n <= u32::MAX,
    ensures
        pending_of(ready, n).contains(id) <==> (id.0 < n && !ready[id.0 as int]),
        pending_of(ready, n).no_duplicates(),
    decreases n,
{
    if n > 0 {
        lemma_pending_are_unready(ready, n - 1, id);
        let rest = pending_of(ready, n - 1);
        let last = TextureId((n - 1) as u32);
        lemma_pending_are_unready(ready, n - 1, last);
        if !ready[n - 1] {
            let all = rest.push(last);
            assert(all[rest.len() as int] == last);
            if rest.contains(id) {
                let w = choose|w: int| 0 <= w < rest.len() && rest[w] == id;
                assert(all[w] == id);
            }
            if all.contains(id) && id != last {
                let w = choose|w: int| 0 <= w < all.len() && all[w] == id;
                assert(rest[w] == id);
            }
            assert forall|a: int, b: int| 0 <= a < all.len() && 0 <= b < all.len() && a != b
                implies all[a] != all[b] by {
                if a == rest.len() {
                    assert(rest[b] == all[b]);
                    assert(rest.contains(all[b]));
                } else if b == rest.len() {
                    assert(rest[a] == all[a]);
                    assert(rest.contains(all[a]));
                }
            }
        }
    }
}

} // verus!
