//! Device sets of the USB event controller.
//!
//! The event loop keeps, per connection, three sets of plugged devices,
//! keyed by the product string `vendor/model/revision`: devices mounted
//! for ingress, devices verified and mounted for egress, and devices in an
//! undefined state. An identity is present in at most one of the three
//! sets at any time, and promotion from one set to another happens only by
//! unplugging and replugging: an add event for a product that is already
//! tracked changes nothing. A remove event purges the product from all
//! three sets; a remove event whose identity cannot be read resets all
//! three, since the loop no longer knows which device left.
//!
//! After every change the loop pushes a snapshot of the three sets to its
//! observer; the snapshot structure is assembled here, its serialization
//! is the caller's task.

use vstd::prelude::*;

verus! {

/// The verdict of the signature verifier for a plugged device.
#[derive(Debug, Clone, Copy, PartialEq, Eq, Structural)]
pub enum SignatureVerdict {
    /// The device carries a valid hybrid signature for its identity.
    Signed,
    /// The device carries no valid signature.
    Unsigned,
    /// The signature region could not be read or decoded; treated exactly
    /// as unsigned.
    Unreadable,
}

/// What the event loop must do after an add event was dispatched.
#[derive(Debug, Clone, Copy, PartialEq, Eq, Structural)]
pub enum UsbAction {
    /// Mount the device read-write and move the outgoing files onto it.
    StartEgress,
    /// Mount the device read-only and copy its files in, after the
    /// optional user authentication.
    StartIngress,
    /// The device is already tracked: do nothing.
    Ignore,
}

/// State of the user-authentication oracle for the snapshot.
#[derive(Debug, Clone)]
pub struct Yubistruct {
    pub active: bool,
    pub yubikeys: Vec<String>,
}

/// One snapshot of the device sets, pushed to the observer after every
/// change.
#[derive(Debug, Clone)]
pub struct Usbkeys {
    pub usb_in: Vec<String>,
    pub usb_out: Vec<String>,
    pub usb_undef: Vec<String>,
    pub yubikeys: Yubistruct,
}

/// Two sequences share no element.
pub open spec fn spec_disjoint(a: Seq<Seq<char>>, b: Seq<Seq<char>>) -> bool {
    forall|x: Seq<char>| a.contains(x) ==> !b.contains(x)
}

/// The three device sets of one event-loop connection.
#[derive(Debug, Clone)]
pub struct UsbState {
    pub keys_in: Vec<String>,
    pub keys_out: Vec<String>,
    pub keys_undef: Vec<String>,
}

/// Membership of an element in a pushed sequence.
proof fn lemma_push_contains<A>(s: Seq<A>, e: A, x: A)
    ensures
        s.push(e).contains(x) <==> s.contains(x) || x == e,
{
    if s.push(e).contains(x) {
        let j = choose|j: int| 0 <= j < s.push(e).len() && s.push(e)[j] == x;
        if j < s.len() {
            assert(s[j] == x);
        }
    }
    if s.contains(x) {
        let j = choose|j: int| 0 <= j < s.len() && s[j] == x;
        assert(s.push(e)[j] == x);
    }
    if x == e {
        assert(s.push(e)[s.len() as int] == x);
    }
}

/// Whether the product is one of the tracked strings.
fn contains_product(v: &Vec<String>, product: &String) -> (r: bool)
    ensures
        r == v.deep_view().contains(product@),
{
    let mut i: usize = 0;
    while i < v.len()
        invariant
            i <= v@.len(),
            forall|j: int| 0 <= j < i ==> v.deep_view()[j] != product@,
        decreases v@.len() - i,
    {
        if *product == v[i] {
            assert(v.deep_view()[i as int] == product@);
            return true;
        }
        i += 1;
    }
    false
}

/// A sequence of product strings without every occurrence of one
/// product, order kept.
pub open spec fn spec_without(s: Seq<Seq<char>>, p: Seq<char>) -> Seq<Seq<char>>
    decreases s.len(),
{
    if s.len() == 0 {
        Seq::<Seq<char>>::empty()
    } else {
        let rest = spec_without(s.drop_last(), p);
        if s.last() == p {
            rest
        } else {
            rest.push(s.last())
        }
    }
}

/// Membership in a sequence purged of one product: everything but that
/// product survives.
pub proof fn lemma_without_contains(s: Seq<Seq<char>>, p: Seq<char>, x: Seq<char>)
    ensures
        spec_without(s, p).contains(x) <==> s.contains(x) && x != p,
    decreases s.len(),
{
    if s.len() > 0 {
        lemma_without_contains(s.drop_last(), p, x);
        lemma_push_contains(s.drop_last(), s.last(), x);
        assert(s =~= s.drop_last().push(s.last()));
        if s.last() != p {
            lemma_push_contains(spec_without(s.drop_last(), p), s.last(), x);
        }
    }
}

/// The tracked strings without every occurrence of the product, order
/// kept.
fn remove_product(v: &Vec<String>, product: &String) -> (r: Vec<String>)
    ensures
        r.deep_view() == spec_without(v.deep_view(), product@),
{
    let mut out: Vec<String> = Vec::new();
    let mut i: usize = 0;
    while i < v.len()
        invariant
            i <= v@.len(),
            out.deep_view() == spec_without(v.deep_view().subrange(0, i as int), product@),
        decreases v@.len() - i,
    {
        let ghost prefix = v.deep_view().subrange(0, i as int);
        let ghost prefix2 = v.deep_view().subrange(0, (i + 1) as int);
        proof {
            assert(prefix2.drop_last() =~= prefix);
            assert(prefix2.last() == v.deep_view()[i as int]);
        }
        if !(*product == v[i]) {
            let ghost old_out = out.deep_view();
            out.push(v[i].clone());
            proof {
                assert(out.deep_view() =~= old_out.push(v.deep_view()[i as int]));
            }
        }
        i += 1;
    }
    proof {
        assert(v.deep_view().subrange(0, v.deep_view().len() as int) =~= v.deep_view());
    }
    out
}

/// An exact copy of the tracked strings.
fn clone_products(v: &Vec<String>) -> (r: Vec<String>)
    ensures
        r@ == v@,
{
    let mut out: Vec<String> = Vec::new();
    let mut i: usize = 0;
    while i < v.len()
        invariant
            i <= v@.len(),
            out@ == v@.subrange(0, i as int),
        decreases v@.len() - i,
    {
        out.push(v[i].clone());
        proof {
            assert(v@.subrange(0, (i + 1) as int) =~= v@.subrange(0, i as int) + seq![
                v@[i as int],
            ]);
        }
        i += 1;
    }
    proof {
        assert(v@.subrange(0, v@.len() as int) =~= v@);
    }
    out
}

impl UsbState {
    /// The in-set as a sequence of product strings.
    pub open spec fn in_set(&self) -> Seq<Seq<char>> {
        self.keys_in.deep_view()
    }

    /// The out-set as a sequence of product strings.
    pub open spec fn out_set(&self) -> Seq<Seq<char>> {
        self.keys_out.deep_view()
    }

    /// The undefined set as a sequence of product strings.
    pub open spec fn undef_set(&self) -> Seq<Seq<char>> {
        self.keys_undef.deep_view()
    }

    /// The ingress, egress and undefined sets are pairwise disjoint.
    pub open spec fn wf(&self) -> bool {
        &&& spec_disjoint(self.in_set(), self.out_set())
        &&& spec_disjoint(self.in_set(), self.undef_set())
        &&& spec_disjoint(self.out_set(), self.undef_set())
    }

    /// A product is tracked when it is in one of the three sets.
    pub open spec fn spec_known(&self, product: Seq<char>) -> bool {
        self.in_set().contains(product) || self.out_set().contains(product)
            || self.undef_set().contains(product)
    }

    /// A fresh state: all three sets empty.
    pub fn new() -> (r: UsbState)
        ensures
            r.in_set() =~= Seq::<Seq<char>>::empty(),
            r.out_set() =~= Seq::<Seq<char>>::empty(),
            r.undef_set() =~= Seq::<Seq<char>>::empty(),
            r.wf(),
    {
        let r = UsbState { keys_in: Vec::new(), keys_out: Vec::new(), keys_undef: Vec::new() };
        proof {
            assert(r.keys_in.deep_view() =~= Seq::<Seq<char>>::empty());
            assert(r.keys_out.deep_view() =~= Seq::<Seq<char>>::empty());
            assert(r.keys_undef.deep_view() =~= Seq::<Seq<char>>::empty());
        }
        r
    }

    /// Dispatch an add event for a partition with the given product key
    /// and verifier verdict. A product that is already tracked changes
    /// nothing: promotion happens only on unplug-then-replug. A new signed
    /// device joins the egress set and its files move out; a new unsigned
    /// or unreadable device joins the ingress set and its files are copied
    /// in. The three sets stay pairwise disjoint.
    pub fn handle_add(&mut self, product: &String, verdict: SignatureVerdict) -> (action:
        UsbAction)
        requires
            old(self).wf(),
        ensures
            final(self).wf(),
            old(self).spec_known(product@) ==> action == UsbAction::Ignore && *final(self)
                == *old(self),
            !old(self).spec_known(product@) && verdict == SignatureVerdict::Signed ==> {
                &&& action == UsbAction::StartEgress
                &&& final(self).out_set() == old(self).out_set().push(product@)
                &&& final(self).in_set() == old(self).in_set()
                &&& final(self).undef_set() == old(self).undef_set()
            },
            !old(self).spec_known(product@) && verdict != SignatureVerdict::Signed ==> {
                &&& action == UsbAction::StartIngress
                &&& final(self).in_set() == old(self).in_set().push(product@)
                &&& final(self).out_set() == old(self).out_set()
                &&& final(self).undef_set() == old(self).undef_set()
            },
    {
        let known = contains_product(&self.keys_in, product) || contains_product(
            &self.keys_out,
            product,
        ) || contains_product(&self.keys_undef, product);
        if known {
            return UsbAction::Ignore;
        }
        match verdict {
            SignatureVerdict::Signed => {
                let ghost old_out = self.keys_out.deep_view();
                self.keys_out.push(product.clone());
                proof {
                    assert(self.keys_out.deep_view() =~= old_out.push(product@));
                    assert forall|x: Seq<char>| #[trigger]
                        self.out_set().contains(x) implies old(self).out_set().contains(x) || x
                        == product@ by {
                        lemma_push_contains(old_out, product@, x);
                    }
                }
                UsbAction::StartEgress
            },
            _ => {
                let ghost old_in = self.keys_in.deep_view();
                self.keys_in.push(product.clone());
                proof {
                    assert(self.keys_in.deep_view() =~= old_in.push(product@));
                    assert forall|x: Seq<char>| #[trigger]
                        self.in_set().contains(x) implies old(self).in_set().contains(x) || x
                        == product@ by {
                        lemma_push_contains(old_in, product@, x);
                    }
                }
                UsbAction::StartIngress
            },
        }
    }

    /// Dispatch a remove event: purge the product from all three sets. The
    /// three sets stay pairwise disjoint.
    pub fn handle_remove(&mut self, product: &String)
        requires
            old(self).wf(),
        ensures
            final(self).wf(),
            !final(self).spec_known(product@),
            final(self).in_set() == spec_without(old(self).in_set(), product@),
            final(self).out_set() == spec_without(old(self).out_set(), product@),
            final(self).undef_set() == spec_without(old(self).undef_set(), product@),
    {
        self.keys_in = remove_product(&self.keys_in, product);
        self.keys_out = remove_product(&self.keys_out, product);
        self.keys_undef = remove_product(&self.keys_undef, product);
        proof {
            assert forall|x: Seq<char>| true implies (#[trigger] self.in_set().contains(x) <==> old(
                self,
            ).in_set().contains(x) && x != product@) by {
                lemma_without_contains(old(self).in_set(), product@, x);
            }
            assert forall|x: Seq<char>| true implies (#[trigger] self.out_set().contains(x)
                <==> old(self).out_set().contains(x) && x != product@) by {
                lemma_without_contains(old(self).out_set(), product@, x);
            }
            assert forall|x: Seq<char>| true implies (#[trigger] self.undef_set().contains(x)
                <==> old(self).undef_set().contains(x) && x != product@) by {
                lemma_without_contains(old(self).undef_set(), product@, x);
            }
        }
    }

    /// Dispatch a remove event whose identity could not be read: the loop
    /// has lost track of which device left, so all three sets are reset.
    pub fn handle_remove_unknown(&mut self)
        ensures
            final(self).in_set() =~= Seq::<Seq<char>>::empty(),
            final(self).out_set() =~= Seq::<Seq<char>>::empty(),
            final(self).undef_set() =~= Seq::<Seq<char>>::empty(),
            final(self).wf(),
    {
        self.keys_in = Vec::new();
        self.keys_out = Vec::new();
        self.keys_undef = Vec::new();
        proof {
            assert(self.keys_in.deep_view() =~= Seq::<Seq<char>>::empty());
            assert(self.keys_out.deep_view() =~= Seq::<Seq<char>>::empty());
            assert(self.keys_undef.deep_view() =~= Seq::<Seq<char>>::empty());
        }
    }

    /// Assemble the snapshot pushed to the observer: the three sets as
    /// they stand, and the state of the authentication oracle.
    pub fn snapshot(&self, yubikey_active: bool, yubikeys: Vec<String>) -> (r: Usbkeys)
        ensures
            r.usb_in@ == self.keys_in@,
            r.usb_out@ == self.keys_out@,
            r.usb_undef@ == self.keys_undef@,
            r.yubikeys.active == yubikey_active,
            r.yubikeys.yubikeys == yubikeys,
    {
        Usbkeys {
            usb_in: clone_products(&self.keys_in),
            usb_out: clone_products(&self.keys_out),
            usb_undef: clone_products(&self.keys_undef),
            yubikeys: Yubistruct { active: yubikey_active, yubikeys },
        }
    }
}

/// Whether the ingress copy runs after the optional user authentication:
/// it runs when the oracle is disabled, or when it is enabled and the
/// challenge succeeded. On failure the copy is skipped but the device
/// stays tracked as an ingress device.
pub fn should_copy_in(yubikey_enabled: bool, auth_passed: bool) -> (r: bool)
    ensures
        r == (!yubikey_enabled || auth_passed),
{
    !yubikey_enabled || auth_passed
}

/// Law: after any add event the three device sets are pairwise disjoint.
/// An add only extends a set with a product that no set held.
pub proof fn lemma_add_preserves_disjoint(pre: UsbState, post: UsbState, product: Seq<char>)
    requires
        pre.wf(),
        !pre.spec_known(product),
        (post.in_set() == pre.in_set().push(product) && post.out_set() == pre.out_set()
            && post.undef_set() == pre.undef_set()) || (post.out_set() == pre.out_set().push(
            product,
        ) && post.in_set() == pre.in_set() && post.undef_set() == pre.undef_set()),
    ensures
        post.wf(),
{
    assert forall|x: Seq<char>| #[trigger]
        pre.in_set().push(product).contains(x) implies pre.in_set().contains(x) || x
        == product by {
        lemma_push_contains(pre.in_set(), product, x);
    }
    assert forall|x: Seq<char>| #[trigger]
        pre.out_set().push(product).contains(x) implies pre.out_set().contains(x) || x
        == product by {
        lemma_push_contains(pre.out_set(), product, x);
    }
}

} // verus!
