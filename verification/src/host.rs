//! A model of the host platform that the library's rules are verified
//! against: the reference-count ledger of foreign objects, the capability
//! flag of the hypervisor, the files the host can reach, the entropy
//! behind generated hardware addresses, and the dispatch queues.
//!
//! The real platform performs these effects natively; the unverified
//! driver that sits outside the library mirrors every operation below
//! onto the real runtime. Inside the library the `Host` value makes the
//! effects explicit, so that the ownership discipline of [`Handle`] and
//! the lifecycle rules of the virtual machine are provable.

use vstd::prelude::*;

verus! {

/// The ledger the host keeps for one foreign object: how many ownership
/// units were ever acquired over it and how many were given back.
#[derive(Clone, Copy)]
pub struct ObjectLedger {
    retains: u64,
    releases: u64,
}

/// The mathematical state of one foreign object's ledger.
#[verifier::ext_equal]
pub struct ObjectView {
    pub retains: nat,
    pub releases: nat,
}

/// The mathematical state of the host.
#[verifier::ext_equal]
pub struct HostView {
    /// Whether the hypervisor supports virtual machines on this host.
    pub supported: bool,
    /// The absolute paths of the files the host can reach.
    pub files: Seq<Seq<char>>,
    /// The entropy counter behind generated hardware addresses.
    pub mac_counter: u64,
    /// How many dispatch queues were created so far.
    pub queues: nat,
    /// The ledger of every foreign object, indexed by raw value minus one.
    pub objects: Seq<ObjectView>,
}

/// The host platform model. All mutation goes through the operations
/// below, each of which is pinned to a transition function on
/// [`HostView`].
pub struct Host {
    supported: bool,
    files: Vec<String>,
    mac_counter: u64,
    queues: u64,
    objects: Vec<ObjectLedger>,
}

/// An object is live when it exists and at least one acquired ownership
/// unit has not been given back. The raw value 0 stands for no object.
pub open spec fn object_live(h: HostView, raw: int) -> bool {
    &&& 1 <= raw <= h.objects.len()
    &&& h.objects[raw - 1].releases < h.objects[raw - 1].retains
}

/// A well-formed host never saw more releases than acquisitions on any
/// object.
pub open spec fn host_wf(h: HostView) -> bool {
    forall|i: int|
        0 <= i < h.objects.len() ==> (#[trigger] h.objects[i]).releases <= h.objects[i].retains
}

/// Allocating a fresh foreign object: its ledger opens with exactly one
/// ownership unit, which the returned handle owns.
pub open spec fn alloc_transition(h: HostView) -> HostView {
    HostView { objects: h.objects.push(ObjectView { retains: 1, releases: 0 }), ..h }
}

/// Retaining a live object: one more ownership unit is acquired.
pub open spec fn retain_transition(h: HostView, raw: int) -> HostView {
    HostView {
        objects: h.objects.update(
            raw - 1,
            ObjectView {
                retains: h.objects[raw - 1].retains + 1,
                releases: h.objects[raw - 1].releases,
            },
        ),
        ..h
    }
}

/// Releasing a live object: exactly one ownership unit is given back.
pub open spec fn release_transition(h: HostView, raw: int) -> HostView {
    HostView {
        objects: h.objects.update(
            raw - 1,
            ObjectView {
                retains: h.objects[raw - 1].retains,
                releases: h.objects[raw - 1].releases + 1,
            },
        ),
        ..h
    }
}

impl View for Host {
    type V = HostView;

    closed spec fn view(&self) -> HostView {
        HostView {
            supported: self.supported,
            files: self.files.deep_view(),
            mac_counter: self.mac_counter,
            queues: self.queues as nat,
            objects: Seq::new(
                self.objects.len() as nat,
                |i: int| ObjectView {
                    retains: self.objects[i].retains as nat,
                    releases: self.objects[i].releases as nat,
                },
            ),
        }
    }
}

impl Host {
    /// A fresh host with the given capability flag, no reachable files,
    /// no objects and no queues.
    pub fn new(supported: bool) -> (h: Host)
        ensures
            h@ == (HostView {
                supported,
                files: Seq::<Seq<char>>::empty(),
                mac_counter: 0,
                queues: 0,
                objects: Seq::<ObjectView>::empty(),
            }),
    {
        let h = Host {
            supported,
            files: Vec::new(),
            mac_counter: 0,
            queues: 0,
            objects: Vec::new(),
        };
        proof {
            assert(h@ =~~= (HostView {
                supported,
                files: Seq::<Seq<char>>::empty(),
                mac_counter: 0,
                queues: 0,
                objects: Seq::<ObjectView>::empty(),
            }));
        }
        h
    }

    /// Whether the hypervisor supports virtual machines on this host.
    pub fn supported(&self) -> (r: bool)
        ensures
            r == self@.supported,
    {
        self.supported
    }

    /// Record that the host can reach the file at the given absolute path.
    pub fn add_file(&mut self, path: String)
        ensures
            final(self)@ == (HostView { files: old(self)@.files.push(path@), ..old(self)@ }),
    {
        let ghost prev = self@;
        self.files.push(path);
        proof {
            assert(self@ =~~= (HostView { files: prev.files.push(path@), ..prev }));
        }
    }

    /// Whether the host can reach a file at the given path.
    pub fn file_reachable(&self, path: &str) -> (r: bool)
        ensures
            r == self@.files.contains(path@),
    {
        let owned_path: String = path.to_owned();
        let mut i: usize = 0;
        while i < self.files.len()
            invariant
                i <= self.files.len(),
                owned_path@ == path@,
                self@.files.len() == self.files.len(),
                forall|j: int| 0 <= j < i ==> self@.files[j] != path@,
            decreases self.files.len() - i,
        {
            assert(self@.files[i as int] == self.files[i as int]@);
            let entry = &self.files[i];
            if entry.eq(&owned_path) {
                assert(self@.files.contains(path@));
                return true;
            }
            i += 1;
        }
        assert(!self@.files.contains(path@));
        false
    }

    /// Create a fresh dispatch queue and return its identifier. Queue
    /// identifiers count up from zero; the label is the human-readable
    /// name the real platform attaches and has no semantic effect here.
    pub fn create_queue(&mut self, label: &str) -> (q: u64)
        requires
            old(self)@.queues < u64::MAX,
        ensures
            q as nat == old(self)@.queues,
            final(self)@ == (HostView { queues: old(self)@.queues + 1, ..old(self)@ }),
    {
        let ghost prev = self@;
        let _ = label;
        let q = self.queues;
        self.queues = self.queues + 1;
        proof {
            assert(self@ =~~= (HostView { queues: prev.queues + 1, ..prev }));
        }
        q
    }

    /// Draw the next value of the entropy counter behind generated
    /// hardware addresses. The counter steps by one and wraps at the
    /// type's end.
    pub fn next_mac_seed(&mut self) -> (seed: u64)
        ensures
            seed == old(self)@.mac_counter,
            final(self)@ == (HostView {
                mac_counter: wrap_increment(old(self)@.mac_counter),
                ..old(self)@
            }),
    {
        let ghost prev = self@;
        let seed = self.mac_counter;
        self.mac_counter = if seed == u64::MAX {
            0
        } else {
            seed + 1
        };
        proof {
            assert(self@ =~~= (HostView { mac_counter: wrap_increment(prev.mac_counter), ..prev }));
        }
        seed
    }

    /// Allocate a fresh foreign object. Allocation already carries one
    /// ownership unit, so the returned handle owns the object without a
    /// further retain.
    pub fn allocate(&mut self) -> (h: Handle)
        requires
            old(self)@.objects.len() < usize::MAX,
        ensures
            final(self)@ == alloc_transition(old(self)@),
            h.raw() == old(self)@.objects.len() + 1,
            object_live(final(self)@, h.raw() as int),
    {
        let ghost prev = self@;
        self.objects.push(ObjectLedger { retains: 1, releases: 0 });
        let raw = self.objects.len();
        proof {
            assert(self@ =~~= alloc_transition(prev));
        }
        Handle { raw }
    }
}

impl Host {
    /// How many foreign objects were ever allocated.
    pub fn object_count(&self) -> (r: usize)
        ensures
            r == self@.objects.len(),
    {
        self.objects.len()
    }

    /// How many ownership units were ever acquired on the object behind
    /// `raw`.
    pub fn object_retains(&self, raw: usize) -> (r: u64)
        requires
            1 <= raw <= self@.objects.len(),
        ensures
            r as nat == retains_of(self@, raw as int),
    {
        self.objects[raw - 1].retains
    }

    /// How many ownership units were ever given back on the object
    /// behind `raw`.
    pub fn object_releases(&self, raw: usize) -> (r: u64)
        requires
            1 <= raw <= self@.objects.len(),
        ensures
            r as nat == releases_of(self@, raw as int),
    {
        self.objects[raw - 1].releases
    }
}

/// The number of ownership units ever given back on the object behind
/// `raw`.
pub open spec fn releases_of(h: HostView, raw: int) -> nat {
    h.objects[raw - 1].releases
}

/// The number of ownership units ever acquired on the object behind
/// `raw`.
pub open spec fn retains_of(h: HostView, raw: int) -> nat {
    h.objects[raw - 1].retains
}

/// An owned reference to one foreign object. A handle is acquired either
/// by allocation ([`Host::allocate`]) or by retaining an existing reference
/// ([`Handle::retained`]); it is not `Clone`, so the only way to a second
/// handle over the same object is [`Handle::duplicate`], which retains.
/// Releasing consumes the handle, so at most one release is ever
/// performed through it.
pub struct Handle {
    raw: usize,
}

impl Handle {
    /// The raw value of the underlying foreign reference.
    pub closed spec fn raw(&self) -> usize {
        self.raw
    }

    /// Acquire ownership of an object reached through a query that does
    /// not transfer ownership: the host retains it first, and the handle
    /// owns that increment.
    pub fn retained(host: &mut Host, raw: usize) -> (h: Handle)
        requires
            raw >= 1,
            object_live(old(host)@, raw as int),
            retains_of(old(host)@, raw as int) < u64::MAX,
        ensures
            final(host)@ == retain_transition(old(host)@, raw as int),
            h.raw() == raw,
    {
        let ghost prev = host@;
        let i = raw - 1;
        let mut entry = host.objects[i];
        entry.retains = entry.retains + 1;
        host.objects.set(i, entry);
        proof {
            assert(host@ =~~= retain_transition(prev, raw as int));
        }
        Handle { raw }
    }

    /// Expose the raw reference for a further foreign call, without
    /// transferring ownership. The host is untouched: this operation has
    /// no parameter through which it could be changed.
    pub fn as_raw(&self) -> (r: usize)
        ensures
            r == self.raw(),
    {
        self.raw
    }

    /// A second owned handle over the same object; copying a handle
    /// always retains.
    pub fn duplicate(&self, host: &mut Host) -> (h: Handle)
        requires
            self.raw() >= 1,
            object_live(old(host)@, self.raw() as int),
            retains_of(old(host)@, self.raw() as int) < u64::MAX,
        ensures
            final(host)@ == retain_transition(old(host)@, self.raw() as int),
            h.raw() == self.raw(),
    {
        Handle::retained(host, self.raw)
    }

    /// Give the owned ownership unit back. The handle is consumed, so no
    /// second release can ever go through it.
    pub fn release(self, host: &mut Host)
        requires
            self.raw() >= 1,
            object_live(old(host)@, self.raw() as int),
        ensures
            final(host)@ == release_transition(old(host)@, self.raw() as int),
    {
        let ghost prev = host@;
        let i = self.raw - 1;
        let mut entry = host.objects[i];
        entry.releases = entry.releases + 1;
        host.objects.set(i, entry);
        proof {
            assert(host@ =~~= release_transition(prev, self.raw as int));
        }
    }
}

/// The successor of a counter value, wrapping at the type's end.
pub open spec fn wrap_increment(n: u64) -> u64 {
    if n == u64::MAX {
        0
    } else {
        (n + 1) as u64
    }
}

/// Law: a release is recorded exactly once. Releasing a live object adds
/// one — and only one — to that object's release count, acquires
/// nothing, and leaves every other object and the rest of the host
/// untouched. Reading a handle's raw value takes no host at all, so the
/// only host effect over a handle's lifetime beyond its acquisition is
/// this single recorded release.
pub proof fn lemma_release_exactly_once(h: HostView, raw: int)
    requires
        object_live(h, raw),
    ensures
        releases_of(release_transition(h, raw), raw) == releases_of(h, raw) + 1,
        retains_of(release_transition(h, raw), raw) == retains_of(h, raw),
        release_transition(h, raw).objects.len() == h.objects.len(),
        forall|other: int|
            1 <= other <= h.objects.len() && other != raw ==> #[trigger] release_transition(
                h,
                raw,
            ).objects[other - 1] == h.objects[other - 1],
        release_transition(h, raw).supported == h.supported,
        release_transition(h, raw).files == h.files,
        release_transition(h, raw).mac_counter == h.mac_counter,
        release_transition(h, raw).queues == h.queues,
{
}

/// Law: every host transition keeps the ledger well-formed — no object
/// ever records more releases than acquisitions.
pub proof fn lemma_transitions_preserve_wf(h: HostView, raw: int)
    requires
        host_wf(h),
    ensures
        host_wf(alloc_transition(h)),
        object_live(h, raw) ==> host_wf(retain_transition(h, raw)),
        object_live(h, raw) ==> host_wf(release_transition(h, raw)),
{
    assert forall|i: int|
        0 <= i < alloc_transition(h).objects.len() implies (#[trigger] alloc_transition(
        h,
    ).objects[i]).releases <= alloc_transition(h).objects[i].retains by {
        if i < h.objects.len() {
            assert(alloc_transition(h).objects[i] == h.objects[i]);
        }
    }
    if object_live(h, raw) {
        assert forall|i: int|
            0 <= i < retain_transition(h, raw).objects.len() implies (
        #[trigger] retain_transition(h, raw).objects[i]).releases <= retain_transition(
            h,
            raw,
        ).objects[i].retains by {
            if i != raw - 1 {
                assert(retain_transition(h, raw).objects[i] == h.objects[i]);
            }
        }
        assert forall|i: int|
            0 <= i < release_transition(h, raw).objects.len() implies (
        #[trigger] release_transition(h, raw).objects[i]).releases <= release_transition(
            h,
            raw,
        ).objects[i].retains by {
            if i != raw - 1 {
                assert(release_transition(h, raw).objects[i] == h.objects[i]);
            }
        }
    }
}

} // verus!
