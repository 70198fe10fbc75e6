//! The resource store: the cache directory layout, the waiter registry fed by
//! filesystem-creation events, and the uploaded-id to photo-URL resolution
//! steps. All paths are byte strings; the caller performs the actual I/O.
use vstd::prelude::*;

use crate::b64::{b64_encode, lemma_encode_injective, lemma_encode_no_dot};
use crate::bytes::{append_bytes, clone_bytes};
use crate::registry::Registry;

verus! {

/// `dir/name`: the final cache path of the file called `name`.
pub open spec fn spec_path(dir: Seq<u8>, name: Seq<u8>) -> Seq<u8> {
    dir + seq![47u8] + name
}

/// `name.tmp`: the in-progress marker name for the file called `name`.
pub open spec fn spec_tmp_name(name: Seq<u8>) -> Seq<u8> {
    name + seq![46u8, 116u8, 109u8, 112u8]
}

/// Errors of the resource store.
#[derive(Clone, Copy, Debug, PartialEq, Eq, Structural)]
pub enum ResError {
    /// A photo-URL resolution was asked for before a resolver was configured.
    ResolverUnset,
}

/// The resource store: cache directory, waiter registry, and the set-once
/// photo-URL resolver slot.
pub struct Res {
    pub directory: Vec<u8>,
    pub handlers: Registry,
    pub resolver_set: bool,
}

impl Res {
    /// The registry keys stay pairwise distinct.
    pub open spec fn wf(self) -> bool {
        self.handlers.wf()
    }

    /// A fresh store over `directory`, with no waiters and no resolver.
    pub fn init(directory: Vec<u8>) -> (r: Res)
        ensures
            r.wf(),
            r.directory@ == directory@,
            forall|k: Seq<u8>| !r.handlers.contains_key(k),
            !r.resolver_set,
    {
        Res { directory, handlers: Registry::new(), resolver_set: false }
    }

    /// The final cache path for the file called `name`; no I/O.
    pub fn path(&self, name: &Vec<u8>) -> (r: Vec<u8>)
        ensures
            r@ == spec_path(self.directory@, name@),
    {
        let mut out = clone_bytes(&self.directory);
        out.push(47);
        append_bytes(&mut out, name);
        proof {
            assert(out@ =~= spec_path(self.directory@, name@));
        }
        out
    }

    /// The in-progress marker path for the file called `name`; no I/O.
    pub fn tmp_path(&self, name: &Vec<u8>) -> (r: Vec<u8>)
        ensures
            r@ == spec_path(self.directory@, spec_tmp_name(name@)),
    {
        let mut out = clone_bytes(&self.directory);
        out.push(47);
        append_bytes(&mut out, name);
        out.push(46);
        out.push(116);
        out.push(109);
        out.push(112);
        proof {
            assert(out@ =~= spec_path(self.directory@, spec_tmp_name(name@)));
        }
        out
    }

    /// Register `waiter` for the file called `name`: it joins the end of the
    /// id's waiter list, and every other list is untouched.
    pub fn wait_for(&mut self, name: &Vec<u8>, waiter: u64)
        requires
            old(self).wf(),
        ensures
            final(self).wf(),
            final(self).directory == old(self).directory,
            final(self).resolver_set == old(self).resolver_set,
            final(self).handlers.contains_key(name@),
            final(self).handlers.waiters_of(name@) == if old(self).handlers.contains_key(name@) {
                old(self).handlers.waiters_of(name@).push(waiter)
            } else {
                seq![waiter]
            },
            forall|k: Seq<u8>|
                k != name@ ==> (#[trigger] final(self).handlers.contains_key(k) <==> old(self).handlers.contains_key(k)),
            forall|k: Seq<u8>|
                k != name@ && old(self).handlers.contains_key(k) ==> #[trigger] final(self).handlers.waiters_of(k) == old(self).handlers.waiters_of(k),
    {
        self.handlers.register(name, waiter);
    }

    /// The watch loop's decision for one file-creation event: if the created
    /// name has waiters, atomically drain them all and hand each the final
    /// path; a name without waiters (a marker, say) changes nothing.
    pub fn on_create_event(&mut self, filename: &Vec<u8>) -> (r: Option<(Vec<u8>, Vec<u64>)>)
        requires
            old(self).wf(),
        ensures
            final(self).wf(),
            final(self).directory == old(self).directory,
            final(self).resolver_set == old(self).resolver_set,
            !final(self).handlers.contains_key(filename@),
            old(self).handlers.contains_key(filename@) ==> (r matches Some(pw) && pw.0@
                == spec_path(old(self).directory@, filename@) && pw.1@ == old(self).handlers.waiters_of(filename@)),
            !old(self).handlers.contains_key(filename@) ==> r is None && final(self).handlers
                == old(self).handlers,
            forall|k: Seq<u8>|
                k != filename@ ==> (#[trigger] final(self).handlers.contains_key(k) <==> old(self).handlers.contains_key(k)),
            forall|k: Seq<u8>|
                k != filename@ && old(self).handlers.contains_key(k) ==> #[trigger] final(self).handlers.waiters_of(k) == old(self).handlers.waiters_of(k),
    {
        match self.handlers.drain(filename) {
            Some(ws) => {
                let p = self.path(filename);
                Some((p, ws))
            },
            None => None,
        }
    }

    /// Configure the photo-URL resolver; the slot is set exactly once.
    pub fn resolve_photo_url(&mut self)
        requires
            old(self).wf(),
            !old(self).resolver_set,
        ensures
            final(self).wf(),
            final(self).resolver_set,
            final(self).directory == old(self).directory,
            final(self).handlers == old(self).handlers,
    {
        self.resolver_set = true;
    }

    /// Decide the photo-URL resolution step from the persistent store's
    /// answer for `uid`: no stored file id means no URL; with one, the
    /// configured resolver must be invoked on `(uid, file id)`; asking with
    /// no resolver configured is a configuration error.
    pub fn get_photo_url(&self, uid: &Vec<u8>, file_id: &Option<Vec<u8>>) -> (r: Result<
        Option<(Vec<u8>, Vec<u8>)>,
        ResError,
    >)
        ensures
            file_id is None ==> r == Ok::<Option<(Vec<u8>, Vec<u8>)>, ResError>(None),
            file_id is Some && !self.resolver_set ==> r == Err::<
                Option<(Vec<u8>, Vec<u8>)>,
                ResError,
            >(ResError::ResolverUnset),
            file_id is Some && self.resolver_set ==> (r matches Ok(s) && s matches Some(p)
                && p.0@ == uid@ && p.1@ == file_id->Some_0@),
    {
        match file_id {
            None => Ok(None),
            Some(f) => {
                if self.resolver_set {
                    Ok(Some((clone_bytes(uid), clone_bytes(f))))
                } else {
                    Err(ResError::ResolverUnset)
                }
            },
        }
    }
}

/// Distinct ids always get distinct cache names and distinct cache paths in
/// the same directory: one id's file can never be served, overwritten or
/// drained as another's.
pub proof fn lemma_distinct_ids_distinct_paths(dir: Seq<u8>, a: Seq<u8>, b: Seq<u8>)
    requires
        a != b,
    ensures
        b64_encode(a) != b64_encode(b),
        spec_path(dir, b64_encode(a)) != spec_path(dir, b64_encode(b)),
{
    if b64_encode(a) == b64_encode(b) {
        lemma_encode_injective(a, b);
    }
    let x = b64_encode(a);
    let y = b64_encode(b);
    if spec_path(dir, x) == spec_path(dir, y) {
        assert(spec_path(dir, x).len() == dir.len() + 1 + x.len());
        assert(spec_path(dir, y).len() == dir.len() + 1 + y.len());
        assert(x.len() == y.len());
        assert forall|i: int| 0 <= i < x.len() implies x[i] == y[i] by {
            assert(spec_path(dir, x)[dir.len() + 1 + i] == x[i]);
            assert(spec_path(dir, y)[dir.len() + 1 + i] == y[i]);
        }
        assert(x =~= y);
    }
}

#[verifier::external_type_specification]
#[verifier::external_body]
pub struct ExUuid(uuid::Uuid);

/// Relies on uuid::Uuid::new_v4: a freshly drawn random identifier; nothing
/// is promised of its value.
#[verifier::external_body]
pub fn new_id() -> uuid::Uuid {
    uuid::Uuid::new_v4()
}

/// A marker name is never an encoded id: every marker name contains an ASCII
/// dot and no encoded id does. So the creation of a marker file can never be
/// mistaken by the watch loop for the completion of some download.
pub proof fn lemma_marker_never_matches_encoded(a: Seq<u8>, b: Seq<u8>)
    ensures
        spec_tmp_name(b64_encode(a)) != b64_encode(b),
{
    let t = spec_tmp_name(b64_encode(a));
    if t == b64_encode(b) {
        lemma_encode_no_dot(b);
        assert(t[b64_encode(a).len() as int] == 46u8);
        assert(false);
    }
}

} // verus!
