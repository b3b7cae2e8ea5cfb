//! The class registry and object table: a model of the native layer's
//! observable state.
//!
//! The native binder layer owns both tables — classes it was asked to
//! define, and the reference-counted objects instantiated from them. The
//! facade reaches that state only through raw pointers, so nothing about
//! it can be checked where the calls are made. This module keeps the two
//! tables as explicit data ([`Host`]) and gives every operation the
//! contract the native layer documents: definition rejects malformed
//! descriptors and touches nothing else; dump and token-header
//! configuration precede the first instantiation; a handle pins its
//! object alive until the last reference (local or native-side) is gone;
//! and dispatch routes a transaction to exactly the state registered for
//! the target object.
//!
//! Class and object identities are the non-zero table indices; they stand
//! for the opaque native pointers, with `0` standing for the null pointer.
//! The callbacks themselves (create, destroy, transact, dump) are
//! capturing closures held by the caller; the registry records where they
//! are registered and the dispatch functions say which one must run, while
//! the unverified rim performs the actual invocation and hands its
//! outcome back.

use crate::descriptor::check_descriptor;
use crate::descriptor::is_valid_descriptor;
use crate::status::BinderStatus;
use vstd::prelude::*;

verus! {

/// One defined class: its immutable descriptor and its configuration.
#[derive(Debug)]
struct ClassRecord {
    descriptor: Vec<u8>,
    has_dump: bool,
    token_header_disabled: bool,
    instances: u64,
}

/// One native object: which class created it (0 for a remote proxy), the
/// user data its create callback returned, and its strong reference count.
#[derive(Debug)]
struct ObjectRecord {
    class: usize,
    user_data: usize,
    strong: u64,
    remote: bool,
}

/// The native layer's observable state: the table of defined classes and
/// the table of live (and formerly live) objects.
///
/// Classes are never undefined; objects keep their slot after death so
/// that a stale identity is recognizably dead rather than recycled.
#[derive(Debug)]
pub struct Host {
    classes: Vec<ClassRecord>,
    objects: Vec<ObjectRecord>,
}

impl Host {
    /// How many classes have been defined.
    pub closed spec fn class_count(&self) -> nat {
        self.classes@.len()
    }

    /// Whether `c` names a defined class (identities are 1-based; 0 is null).
    pub open spec fn class_id_valid(&self, c: usize) -> bool {
        1 <= c <= self.class_count()
    }

    /// The descriptor class `c` was defined with.
    pub closed spec fn class_descriptor(&self, c: usize) -> Seq<u8> {
        self.classes@[c - 1].descriptor@
    }

    /// Whether a dump handler is registered for class `c`.
    pub closed spec fn class_has_dump(&self, c: usize) -> bool {
        self.classes@[c - 1].has_dump
    }

    /// Whether the interface-token header is disabled for class `c`.
    pub closed spec fn class_token_disabled(&self, c: usize) -> bool {
        self.classes@[c - 1].token_header_disabled
    }

    /// How many objects of class `c` have been instantiated.
    pub closed spec fn class_instances(&self, c: usize) -> u64 {
        self.classes@[c - 1].instances
    }

    /// How many object slots exist (live or dead).
    pub closed spec fn object_count(&self) -> nat {
        self.objects@.len()
    }

    /// Whether `o` names an object slot (identities are 1-based; 0 is null).
    pub open spec fn object_id_valid(&self, o: usize) -> bool {
        1 <= o <= self.object_count()
    }

    /// The strong reference count of object `o` (local handles plus the
    /// native side's own references).
    pub closed spec fn object_strong(&self, o: usize) -> u64 {
        self.objects@[o - 1].strong
    }

    /// Whether object `o` is still alive: some reference remains.
    pub open spec fn object_alive(&self, o: usize) -> bool {
        self.object_strong(o) > 0
    }

    /// The user data object `o`'s create callback returned.
    pub closed spec fn object_user_data(&self, o: usize) -> usize {
        self.objects@[o - 1].user_data
    }

    /// Whether object `o` is a remote proxy rather than a local object.
    pub closed spec fn object_remote(&self, o: usize) -> bool {
        self.objects@[o - 1].remote
    }

    /// The class that produced object `o`, or 0 when none is known locally.
    pub closed spec fn object_class(&self, o: usize) -> usize {
        self.objects@[o - 1].class
    }

    /// Well-formedness: every defined class has a valid descriptor, and
    /// every object either is a remote proxy (class 0) or names a defined
    /// class.
    pub closed spec fn wf(&self) -> bool {
        &&& forall|c: int|
            0 <= c < self.classes@.len() ==> is_valid_descriptor(
                (#[trigger] self.classes@[c]).descriptor@,
            )
        &&& forall|o: int|
            0 <= o < self.objects@.len() ==> ((#[trigger] self.objects@[o]).remote <==> self.objects@[o].class
                == 0)
        &&& forall|o: int|
            0 <= o < self.objects@.len() ==> 1 <= (#[trigger] self.objects@[o]).class <= self.classes@.len()
                || self.objects@[o].class == 0
    }

    /// A fresh native layer: nothing defined, nothing instantiated.
    pub fn new() -> (r: Host)
        ensures
            r.wf(),
            r.class_count() == 0,
            r.object_count() == 0,
    {
        Host { classes: Vec::new(), objects: Vec::new() }
    }
}

/// Whether class `c` reads the same in `post` as in `pre`.
pub open spec fn class_unchanged(pre: Host, post: Host, c: usize) -> bool {
    &&& post.class_descriptor(c) == pre.class_descriptor(c)
    &&& post.class_has_dump(c) == pre.class_has_dump(c)
    &&& post.class_token_disabled(c) == pre.class_token_disabled(c)
    &&& post.class_instances(c) == pre.class_instances(c)
}

/// Whether the whole class table reads the same in `post` as in `pre`.
pub open spec fn same_classes(pre: Host, post: Host) -> bool {
    &&& post.class_count() == pre.class_count()
    &&& forall|c: usize| pre.class_id_valid(c) ==> #[trigger] class_unchanged(pre, post, c)
}

/// Whether object `o` reads the same in `post` as in `pre`.
pub open spec fn object_unchanged(pre: Host, post: Host, o: usize) -> bool {
    &&& post.object_strong(o) == pre.object_strong(o)
    &&& post.object_user_data(o) == pre.object_user_data(o)
    &&& post.object_remote(o) == pre.object_remote(o)
    &&& post.object_class(o) == pre.object_class(o)
}

/// Whether the whole object table reads the same in `post` as in `pre`.
pub open spec fn same_objects(pre: Host, post: Host) -> bool {
    &&& post.object_count() == pre.object_count()
    &&& forall|o: usize| pre.object_id_valid(o) ==> #[trigger] object_unchanged(pre, post, o)
}

/// Whether the native layer's state reads the same in `post` as in `pre`.
pub open spec fn same_host(pre: Host, post: Host) -> bool {
    &&& same_classes(pre, post)
    &&& same_objects(pre, post)
}

proof fn lemma_same_classes_refl(pre: Host, post: Host)
    requires
        pre.classes@ == post.classes@,
    ensures
        same_classes(pre, post),
{
    assert forall|c: usize| pre.class_id_valid(c) implies #[trigger] class_unchanged(
        pre,
        post,
        c,
    ) by {}
}

proof fn lemma_same_objects_refl(pre: Host, post: Host)
    requires
        pre.objects@ == post.objects@,
    ensures
        same_objects(pre, post),
{
    assert forall|o: usize| pre.object_id_valid(o) implies #[trigger] object_unchanged(
        pre,
        post,
        o,
    ) by {}
}

/// A defined class of binder objects: the identity the native layer
/// returned for it.
#[derive(Clone, Copy, Debug, Eq, Hash, Ord, PartialEq, PartialOrd, Structural)]
pub struct IBinderClass {
    id: usize,
}

impl IBinderClass {
    /// The class identity within the host's class table.
    pub closed spec fn spec_id(&self) -> usize {
        self.id
    }

    /// Whether this class handle names a class defined in `host`.
    pub open spec fn valid_for(&self, host: Host) -> bool {
        host.class_id_valid(self.spec_id())
    }

    /// Defines a new class of binders named by `interface_descriptor`.
    ///
    /// The caller keeps the class's create, destroy and transact closures;
    /// the dispatch functions on [`Host`] name which of them must run for
    /// an event. Returns `None`, with the native state untouched, exactly
    /// when the descriptor is malformed (empty, interior zero byte, or
    /// not UTF-8); a well-formed descriptor always defines a fresh class,
    /// even if an earlier class used the same descriptor — the two are
    /// then independent.
    #[must_use]
    pub fn define(host: &mut Host, interface_descriptor: &Vec<u8>) -> (r: Option<IBinderClass>)
        requires
            old(host).wf(),
            old(host).class_count() < usize::MAX,
        ensures
            final(host).wf(),
            (r is Some) == is_valid_descriptor(interface_descriptor@),
            r is None ==> same_host(*old(host), *final(host)),
            r matches Some(cls) ==> {
                &&& cls.spec_id() == old(host).class_count() + 1
                &&& cls.valid_for(*final(host))
                &&& final(host).class_count() == old(host).class_count() + 1
                &&& final(host).class_descriptor(cls.spec_id()) == interface_descriptor@
                &&& !final(host).class_has_dump(cls.spec_id())
                &&& !final(host).class_token_disabled(cls.spec_id())
                &&& final(host).class_instances(cls.spec_id()) == 0
                &&& forall|c: usize|
                    old(host).class_id_valid(c) ==> #[trigger] class_unchanged(
                        *old(host),
                        *final(host),
                        c,
                    )
                &&& same_objects(*old(host), *final(host))
            },
    {
        if !check_descriptor(interface_descriptor) {
            proof {
                lemma_same_classes_refl(*old(host), *host);
                lemma_same_objects_refl(*old(host), *host);
            }
            return None;
        }
        let mut descriptor_copy: Vec<u8> = Vec::new();
        let n = interface_descriptor.len();
        let mut i: usize = 0;
        while i < n
            invariant
                i <= n,
                n == interface_descriptor@.len(),
                descriptor_copy@ == interface_descriptor@.subrange(0, i as int),
            decreases n - i,
        {
            descriptor_copy.push(interface_descriptor[i]);
            i = i + 1;
            proof {
                assert(descriptor_copy@ =~= interface_descriptor@.subrange(0, i as int));
            }
        }
        proof {
            assert(descriptor_copy@ =~= interface_descriptor@);
        }
        let id = host.classes.len() + 1;
        host.classes.push(
            ClassRecord {
                descriptor: descriptor_copy,
                has_dump: false,
                token_header_disabled: false,
                instances: 0,
            },
        );
        proof {
            assert forall|c: usize| old(host).class_id_valid(c) implies #[trigger] class_unchanged(
                *old(host),
                *host,
                c,
            ) by {
                assert(host.classes@[c - 1] == old(host).classes@[c - 1]);
            }
            lemma_same_objects_refl(*old(host), *host);
        }
        Some(IBinderClass { id })
    }

    /// Records that a dump handler is registered for this class.
    ///
    /// The handler closure itself stays with the caller; dump dispatch
    /// reports whether it must be invoked. The native layer requires this
    /// configuration strictly before the first instance of the class is
    /// created — afterwards its effect is undefined — so that constraint
    /// is a precondition here.
    pub fn set_on_dump(&self, host: &mut Host)
        requires
            old(host).wf(),
            self.valid_for(*old(host)),
            old(host).class_instances(self.spec_id()) == 0,
        ensures
            final(host).wf(),
            final(host).class_count() == old(host).class_count(),
            final(host).class_has_dump(self.spec_id()),
            final(host).class_descriptor(self.spec_id()) == old(host).class_descriptor(
                self.spec_id(),
            ),
            final(host).class_token_disabled(self.spec_id()) == old(host).class_token_disabled(
                self.spec_id(),
            ),
            final(host).class_instances(self.spec_id()) == 0,
            forall|c: usize|
                old(host).class_id_valid(c) && c != self.spec_id() ==> #[trigger] class_unchanged(
                    *old(host),
                    *final(host),
                    c,
                ),
            same_objects(*old(host), *final(host)),
    {
        host.classes[self.id - 1].has_dump = true;
        proof {
            assert forall|c: usize|
                old(host).class_id_valid(c) && c != self.spec_id() implies #[trigger] class_unchanged(
                *old(host),
                *host,
                c,
            ) by {
                assert(host.classes@[c - 1] == old(host).classes@[c - 1]);
            }
            lemma_same_objects_refl(*old(host), *host);
        }
    }

    /// Records that instances of this class will not carry the implicit
    /// interface-token header on their transactions.
    ///
    /// As with the dump handler, the native layer requires this strictly
    /// before the first instance of the class is created.
    pub fn disable_interface_token_header(&self, host: &mut Host)
        requires
            old(host).wf(),
            self.valid_for(*old(host)),
            old(host).class_instances(self.spec_id()) == 0,
        ensures
            final(host).wf(),
            final(host).class_count() == old(host).class_count(),
            final(host).class_token_disabled(self.spec_id()),
            final(host).class_descriptor(self.spec_id()) == old(host).class_descriptor(
                self.spec_id(),
            ),
            final(host).class_has_dump(self.spec_id()) == old(host).class_has_dump(self.spec_id()),
            final(host).class_instances(self.spec_id()) == 0,
            forall|c: usize|
                old(host).class_id_valid(c) && c != self.spec_id() ==> #[trigger] class_unchanged(
                    *old(host),
                    *final(host),
                    c,
                ),
            same_objects(*old(host), *final(host)),
    {
        host.classes[self.id - 1].token_header_disabled = true;
        proof {
            assert forall|c: usize|
                old(host).class_id_valid(c) && c != self.spec_id() implies #[trigger] class_unchanged(
                *old(host),
                *host,
                c,
            ) by {
                assert(host.classes@[c - 1] == old(host).classes@[c - 1]);
            }
            lemma_same_objects_refl(*old(host), *host);
        }
    }

    /// Whether a dump handler has been registered for this class.
    pub fn has_dump_handler(&self, host: &Host) -> (r: bool)
        requires
            self.valid_for(*host),
        ensures
            r == host.class_has_dump(self.spec_id()),
    {
        host.classes[self.id - 1].has_dump
    }

    /// Whether the interface-token header has been disabled for this class.
    pub fn interface_token_disabled(&self, host: &Host) -> (r: bool)
        requires
            self.valid_for(*host),
        ensures
            r == host.class_token_disabled(self.spec_id()),
    {
        host.classes[self.id - 1].token_header_disabled
    }

    /// The descriptor this class was defined with; always a valid
    /// descriptor, since definition admits nothing else.
    pub fn descriptor<'a>(&self, host: &'a Host) -> (r: &'a Vec<u8>)
        requires
            host.wf(),
            self.valid_for(*host),
        ensures
            r@ == host.class_descriptor(self.spec_id()),
            is_valid_descriptor(r@),
    {
        &host.classes[self.id - 1].descriptor
    }
}

/// A handle to one native object, local or remote. The handle does not
/// own the object: the native layer reference-counts it, and the handle
/// stands for exactly one strong reference.
#[derive(Clone, Copy, Debug, Eq, Hash, Ord, PartialEq, PartialOrd, Structural)]
pub struct IBinder {
    id: usize,
}

impl Host {
    /// Instantiates a new local object of `class`, as the native layer
    /// does on demand; `user_data` is what the class's create callback
    /// returned for it. The new object starts with one strong reference,
    /// which the returned handle stands for.
    pub fn new_object(&mut self, class: &IBinderClass, user_data: usize) -> (r: IBinder)
        requires
            old(self).wf(),
            class.valid_for(*old(self)),
            old(self).object_count() < usize::MAX,
            old(self).class_instances(class.spec_id()) < u64::MAX,
        ensures
            final(self).wf(),
            r.spec_id() == old(self).object_count() + 1,
            r.valid_for(*final(self)),
            final(self).object_count() == old(self).object_count() + 1,
            final(self).object_strong(r.spec_id()) == 1,
            final(self).object_alive(r.spec_id()),
            final(self).object_user_data(r.spec_id()) == user_data,
            !final(self).object_remote(r.spec_id()),
            final(self).object_class(r.spec_id()) == class.spec_id(),
            forall|o: usize|
                old(self).object_id_valid(o) ==> #[trigger] object_unchanged(
                    *old(self),
                    *final(self),
                    o,
                ),
            final(self).class_count() == old(self).class_count(),
            final(self).class_instances(class.spec_id()) == old(self).class_instances(
                class.spec_id(),
            ) + 1,
            final(self).class_descriptor(class.spec_id()) == old(self).class_descriptor(
                class.spec_id(),
            ),
            final(self).class_has_dump(class.spec_id()) == old(self).class_has_dump(
                class.spec_id(),
            ),
            final(self).class_token_disabled(class.spec_id()) == old(self).class_token_disabled(
                class.spec_id(),
            ),
            forall|c: usize|
                old(self).class_id_valid(c) && c != class.spec_id() ==> #[trigger] class_unchanged(
                    *old(self),
                    *final(self),
                    c,
                ),
    {
        let id = self.objects.len() + 1;
        self.objects.push(
            ObjectRecord { class: class.id, user_data, strong: 1, remote: false },
        );
        let instances = self.classes[class.id - 1].instances;
        self.classes[class.id - 1].instances = instances + 1;
        proof {
            assert forall|o: usize| old(self).object_id_valid(o) implies #[trigger] object_unchanged(
                *old(self),
                *self,
                o,
            ) by {
                assert(self.objects@[o - 1] == old(self).objects@[o - 1]);
            }
            assert forall|c: usize|
                old(self).class_id_valid(c) && c != class.spec_id() implies #[trigger] class_unchanged(
                *old(self),
                *self,
                c,
            ) by {
                assert(self.classes@[c - 1] == old(self).classes@[c - 1]);
            }
        }
        IBinder { id }
    }

    /// Takes in a remote proxy object arriving from outside the process
    /// (for instance from a service lookup), holding one strong reference,
    /// and returns the raw identity the native layer would hand out for
    /// it — suitable for [`IBinder::from_ptr`].
    pub fn adopt_remote_object(&mut self) -> (raw: usize)
        requires
            old(self).wf(),
            old(self).object_count() < usize::MAX,
        ensures
            final(self).wf(),
            raw == old(self).object_count() + 1,
            raw != 0,
            final(self).object_id_valid(raw),
            final(self).object_count() == old(self).object_count() + 1,
            final(self).object_strong(raw) == 1,
            final(self).object_alive(raw),
            final(self).object_remote(raw),
            final(self).object_class(raw) == 0,
            final(self).object_user_data(raw) == 0,
            forall|o: usize|
                old(self).object_id_valid(o) ==> #[trigger] object_unchanged(
                    *old(self),
                    *final(self),
                    o,
                ),
            same_classes(*old(self), *final(self)),
    {
        let raw = self.objects.len() + 1;
        self.objects.push(ObjectRecord { class: 0, user_data: 0, strong: 1, remote: true });
        proof {
            assert forall|o: usize| old(self).object_id_valid(o) implies #[trigger] object_unchanged(
                *old(self),
                *self,
                o,
            ) by {
                assert(self.objects@[o - 1] == old(self).objects@[o - 1]);
            }
            lemma_same_classes_refl(*old(self), *self);
        }
        raw
    }

    /// Releases one strong reference on object `o`, as the native layer
    /// does when any holder lets go. When the last reference goes and the
    /// object is local, the object is destroyed and its user data is
    /// returned so that the caller runs the class's destroy callback on
    /// it; a remote proxy just dies silently.
    pub fn native_release(&mut self, o: usize) -> (destroyed: Option<usize>)
        requires
            old(self).wf(),
            old(self).object_id_valid(o),
            old(self).object_strong(o) > 0,
        ensures
            final(self).wf(),
            final(self).object_strong(o) == old(self).object_strong(o) - 1,
            final(self).object_alive(o) == (old(self).object_strong(o) > 1),
            destroyed == (if old(self).object_strong(o) == 1 && old(self).object_class(o) != 0 {
                Some(old(self).object_user_data(o))
            } else {
                Option::<usize>::None
            }),
            final(self).object_user_data(o) == old(self).object_user_data(o),
            final(self).object_remote(o) == old(self).object_remote(o),
            final(self).object_class(o) == old(self).object_class(o),
            final(self).object_count() == old(self).object_count(),
            forall|p: usize|
                old(self).object_id_valid(p) && p != o ==> #[trigger] object_unchanged(
                    *old(self),
                    *final(self),
                    p,
                ),
            same_classes(*old(self), *final(self)),
    {
        let strong = self.objects[o - 1].strong;
        self.objects[o - 1].strong = strong - 1;
        let destroyed = if strong == 1 && self.objects[o - 1].class != 0 {
            Some(self.objects[o - 1].user_data)
        } else {
            None
        };
        proof {
            assert forall|p: usize|
                old(self).object_id_valid(p) && p != o implies #[trigger] object_unchanged(
                *old(self),
                *self,
                p,
            ) by {
                assert(self.objects@[p - 1] == old(self).objects@[p - 1]);
            }
            lemma_same_classes_refl(*old(self), *self);
        }
        destroyed
    }
}

/// Where a transaction must be routed: the state registered for the
/// target object.
#[derive(Clone, Copy, Debug, PartialEq, Eq, Structural)]
pub struct TransactTarget {
    /// The user data the target object's create callback returned; the
    /// transact closure of the class runs against this state.
    pub user_data: usize,
    /// The class whose transact closure must run.
    pub class: IBinderClass,
}

/// What a dump request on a handle requires of the caller.
#[derive(Clone, Copy, Debug, PartialEq, Eq, Structural)]
pub enum DumpDisposition {
    /// The class registered a dump handler: invoke it, then close the
    /// channel with the status it returned.
    Invoke(IBinderClass),
    /// No dump handler is registered: nothing is dumped and the dump
    /// succeeds with empty output; the channel must still be closed.
    NoHandler,
    /// The object is a remote proxy: the request is forwarded to the
    /// remote process by the native layer.
    Remote,
}

impl IBinder {
    /// The object identity within the host's object table.
    pub closed spec fn spec_id(&self) -> usize {
        self.id
    }

    /// Whether this handle names an object slot in `host`.
    pub open spec fn valid_for(&self, host: Host) -> bool {
        host.object_id_valid(self.spec_id())
    }

    /// Wraps a raw object identity in a handle, taking a strong reference
    /// of its own. A null identity is rejected before anything else
    /// happens — the native state is untouched — as is an identity that
    /// does not name a live object.
    pub fn from_ptr(host: &mut Host, raw: usize) -> (r: Option<IBinder>)
        requires
            old(host).wf(),
            old(host).object_id_valid(raw) && old(host).object_alive(raw) ==> old(
                host,
            ).object_strong(raw) < u64::MAX,
        ensures
            final(host).wf(),
            (r is Some) == (raw != 0 && old(host).object_id_valid(raw) && old(host).object_alive(
                raw,
            )),
            r is None ==> same_host(*old(host), *final(host)),
            r matches Some(h) ==> {
                &&& h.spec_id() == raw
                &&& h.valid_for(*final(host))
                &&& final(host).object_strong(raw) == old(host).object_strong(raw) + 1
                &&& final(host).object_user_data(raw) == old(host).object_user_data(raw)
                &&& final(host).object_remote(raw) == old(host).object_remote(raw)
                &&& final(host).object_class(raw) == old(host).object_class(raw)
                &&& final(host).object_count() == old(host).object_count()
                &&& forall|p: usize|
                    old(host).object_id_valid(p) && p != raw ==> #[trigger] object_unchanged(
                        *old(host),
                        *final(host),
                        p,
                    )
                &&& same_classes(*old(host), *final(host))
            },
    {
        if raw == 0 || raw > host.objects.len() {
            proof {
                lemma_same_classes_refl(*old(host), *host);
                lemma_same_objects_refl(*old(host), *host);
            }
            return None;
        }
        let strong = host.objects[raw - 1].strong;
        if strong == 0 {
            proof {
                lemma_same_classes_refl(*old(host), *host);
                lemma_same_objects_refl(*old(host), *host);
            }
            return None;
        }
        host.objects[raw - 1].strong = strong + 1;
        proof {
            assert forall|p: usize|
                old(host).object_id_valid(p) && p != raw implies #[trigger] object_unchanged(
                *old(host),
                *host,
                p,
            ) by {
                assert(host.objects@[p - 1] == old(host).objects@[p - 1]);
            }
            lemma_same_classes_refl(*old(host), *host);
        }
        Some(IBinder { id: raw })
    }

    /// Reconstructs a borrowed handle from the raw identity the native
    /// layer passed into a callback. No reference is taken: inside a
    /// callback the native layer itself keeps the object alive for the
    /// duration of the call. A null identity is rejected.
    pub fn borrow_raw(host: &Host, raw: usize) -> (r: Option<IBinder>)
        ensures
            (r is Some) == (raw != 0 && host.object_id_valid(raw)),
            r matches Some(h) ==> h.spec_id() == raw && h.valid_for(*host),
    {
        if raw == 0 || raw > host.objects.len() {
            None
        } else {
            Some(IBinder { id: raw })
        }
    }

    /// Clones the handle, incrementing the native strong count: the copy
    /// stands for a reference of its own.
    pub fn clone_handle(&self, host: &mut Host) -> (r: IBinder)
        requires
            old(host).wf(),
            self.valid_for(*old(host)),
            old(host).object_strong(self.spec_id()) > 0,
            old(host).object_strong(self.spec_id()) < u64::MAX,
        ensures
            final(host).wf(),
            r.spec_id() == self.spec_id(),
            final(host).object_strong(self.spec_id()) == old(host).object_strong(self.spec_id())
                + 1,
            final(host).object_user_data(self.spec_id()) == old(host).object_user_data(
                self.spec_id(),
            ),
            final(host).object_remote(self.spec_id()) == old(host).object_remote(self.spec_id()),
            final(host).object_class(self.spec_id()) == old(host).object_class(self.spec_id()),
            final(host).object_count() == old(host).object_count(),
            forall|p: usize|
                old(host).object_id_valid(p) && p != self.spec_id() ==> #[trigger] object_unchanged(
                    *old(host),
                    *final(host),
                    p,
                ),
            same_classes(*old(host), *final(host)),
    {
        let strong = host.objects[self.id - 1].strong;
        host.objects[self.id - 1].strong = strong + 1;
        proof {
            assert forall|p: usize|
                old(host).object_id_valid(p) && p != self.spec_id() implies #[trigger] object_unchanged(
                *old(host),
                *host,
                p,
            ) by {
                assert(host.objects@[p - 1] == old(host).objects@[p - 1]);
            }
            lemma_same_classes_refl(*old(host), *host);
        }
        IBinder { id: self.id }
    }

    /// Gives up the handle, releasing the strong reference it stands for.
    /// Returns the user data to destroy exactly when this was the last
    /// reference on a local object (the caller then runs the class's
    /// destroy callback on it).
    pub fn release(self, host: &mut Host) -> (destroyed: Option<usize>)
        requires
            old(host).wf(),
            self.valid_for(*old(host)),
            old(host).object_strong(self.spec_id()) > 0,
        ensures
            final(host).wf(),
            final(host).object_strong(self.spec_id()) == old(host).object_strong(self.spec_id())
                - 1,
            final(host).object_alive(self.spec_id()) == (old(host).object_strong(self.spec_id())
                > 1),
            destroyed == (if old(host).object_strong(self.spec_id()) == 1 && old(
                host,
            ).object_class(self.spec_id()) != 0 {
                Some(old(host).object_user_data(self.spec_id()))
            } else {
                Option::<usize>::None
            }),
            final(host).object_user_data(self.spec_id()) == old(host).object_user_data(
                self.spec_id(),
            ),
            final(host).object_remote(self.spec_id()) == old(host).object_remote(self.spec_id()),
            final(host).object_class(self.spec_id()) == old(host).object_class(self.spec_id()),
            final(host).object_count() == old(host).object_count(),
            forall|p: usize|
                old(host).object_id_valid(p) && p != self.spec_id() ==> #[trigger] object_unchanged(
                    *old(host),
                    *final(host),
                    p,
                ),
            same_classes(*old(host), *final(host)),
    {
        host.native_release(self.id)
    }

    /// Whether the object behind the handle is still alive: true until
    /// the last reference — local handles and native-side alike — has been
    /// released, false from then on.
    pub fn is_alive(&self, host: &Host) -> (r: bool)
        requires
            self.valid_for(*host),
        ensures
            r == host.object_alive(self.spec_id()),
    {
        host.objects[self.id - 1].strong > 0
    }

    /// Whether the handle names a remote proxy rather than a local object.
    pub fn is_remote(&self, host: &Host) -> (r: bool)
        requires
            self.valid_for(*host),
        ensures
            r == host.object_remote(self.spec_id()),
    {
        host.objects[self.id - 1].remote
    }

    /// The class that produced the object, when it is known locally;
    /// `None` for a remote proxy.
    pub fn class(&self, host: &Host) -> (r: Option<IBinderClass>)
        requires
            host.wf(),
            self.valid_for(*host),
        ensures
            (r is Some) == (host.object_class(self.spec_id()) != 0),
            r matches Some(c) ==> c.spec_id() == host.object_class(self.spec_id()) && c.valid_for(
                *host,
            ),
    {
        let class = host.objects[self.id - 1].class;
        if class == 0 {
            None
        } else {
            Some(IBinderClass { id: class })
        }
    }

    /// Resolves an inbound transaction on this object, as the dispatch
    /// trampoline must before any callback runs: a dead target is refused
    /// with `DeadObject`; a live one yields exactly the state registered
    /// for this object — its class's transact closure and its own user
    /// data — and never another object's.
    ///
    /// The native layer invokes the trampoline only for local objects, so
    /// a local target is a precondition.
    pub fn transact_target(&self, host: &Host) -> (r: Result<TransactTarget, BinderStatus>)
        requires
            host.wf(),
            self.valid_for(*host),
            !host.object_remote(self.spec_id()),
        ensures
            (r is Ok) == host.object_alive(self.spec_id()),
            !host.object_alive(self.spec_id()) ==> r == Err::<TransactTarget, BinderStatus>(
                BinderStatus::DeadObject,
            ),
            r matches Ok(t) ==> {
                &&& t.user_data == host.object_user_data(self.spec_id())
                &&& t.class.spec_id() == host.object_class(self.spec_id())
                &&& t.class.valid_for(*host)
            },
    {
        let strong = host.objects[self.id - 1].strong;
        if strong == 0 {
            Err(BinderStatus::DeadObject)
        } else {
            Ok(
                TransactTarget {
                    user_data: host.objects[self.id - 1].user_data,
                    class: IBinderClass { id: host.objects[self.id - 1].class },
                },
            )
        }
    }

    /// Resolves a dump request on this object: a dead target is refused
    /// with `DeadObject`; a live remote proxy must be forwarded by the
    /// native layer; a live local object either has a registered dump
    /// handler — which the caller must invoke — or dumps nothing and
    /// succeeds.
    pub fn dump_disposition(&self, host: &Host) -> (r: Result<DumpDisposition, BinderStatus>)
        requires
            host.wf(),
            self.valid_for(*host),
        ensures
            (r is Ok) == host.object_alive(self.spec_id()),
            !host.object_alive(self.spec_id()) ==> r == Err::<DumpDisposition, BinderStatus>(
                BinderStatus::DeadObject,
            ),
            host.object_alive(self.spec_id()) && host.object_remote(self.spec_id()) ==> r == Ok::<
                DumpDisposition,
                BinderStatus,
            >(DumpDisposition::Remote),
            host.object_alive(self.spec_id()) && !host.object_remote(self.spec_id())
                && host.class_has_dump(host.object_class(self.spec_id())) ==> (r matches Ok(
                DumpDisposition::Invoke(c),
            ) && c.spec_id() == host.object_class(self.spec_id()) && c.valid_for(*host)),
            host.object_alive(self.spec_id()) && !host.object_remote(self.spec_id())
                && !host.class_has_dump(host.object_class(self.spec_id())) ==> r == Ok::<
                DumpDisposition,
                BinderStatus,
            >(DumpDisposition::NoHandler),
    {
        let strong = host.objects[self.id - 1].strong;
        if strong == 0 {
            return Err(BinderStatus::DeadObject);
        }
        if host.objects[self.id - 1].remote {
            return Ok(DumpDisposition::Remote);
        }
        let class = host.objects[self.id - 1].class;
        if host.classes[class - 1].has_dump {
            Ok(DumpDisposition::Invoke(IBinderClass { id: class }))
        } else {
            Ok(DumpDisposition::NoHandler)
        }
    }
}

/// The state an inbound transaction on object `o` is routed to: the user
/// data registered for `o` and the class whose transact closure runs.
pub open spec fn transact_route(host: Host, o: usize) -> (usize, usize) {
    (host.object_user_data(o), host.object_class(o))
}

/// Law: dispatch routes by object identity alone. For two distinct live
/// local objects, each transaction is routed to that object's own
/// registered state, read from disjoint records; objects with distinct
/// registered state can never observe each other's calls.
pub proof fn lemma_dispatch_no_cross_talk(host: Host, a: usize, b: usize)
    requires
        host.wf(),
        a != b,
        host.object_id_valid(a),
        host.object_id_valid(b),
    ensures
        transact_route(host, a) == (host.object_user_data(a), host.object_class(a)),
        transact_route(host, b) == (host.object_user_data(b), host.object_class(b)),
        host.object_user_data(a) != host.object_user_data(b) ==> transact_route(host, a)
            != transact_route(host, b),
{
}

/// Law: liveness is exactly "some reference remains". An object reads as
/// alive while its strong count — local handles plus native-side
/// references — is positive, and as dead from the moment the count
/// reaches zero; each clone adds one to the count and each release takes
/// one away, so any sequence of creations, clones and drops keeps
/// `is_alive` true until the last reference goes and false thereafter.
pub proof fn lemma_alive_iff_reference_held(host: Host, o: usize)
    requires
        host.object_id_valid(o),
    ensures
        host.object_alive(o) <==> host.object_strong(o) > 0,
{
}

/// Law: the route of a dispatch depends only on the target object's own
/// record. Any step that leaves that record unchanged — defining classes,
/// creating other objects, reference-count traffic on other objects —
/// leaves the object's liveness and routing untouched, so concurrent
/// activity elsewhere cannot redirect a call.
pub proof fn lemma_dispatch_frame(pre: Host, post: Host, o: usize)
    requires
        object_unchanged(pre, post, o),
    ensures
        transact_route(post, o) == transact_route(pre, o),
        post.object_alive(o) == pre.object_alive(o),
{
}

} // verus!
