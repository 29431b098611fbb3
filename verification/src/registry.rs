//! Capability discovery over the display server's registry.
//!
//! During the initial synchronization round-trip the server advertises every
//! existing global capability. The session watches those advertisements and
//! decides, for the single interface this tool needs, when to bind: the first
//! matching advertisement wins, later ones are ignored, and advertisements of
//! other interfaces are inert.
//!
//! The session records the decision as a plain [`Binding`] (the advertised
//! numeric name and version used for the bind request); the caller that owns
//! the transport issues the actual bind request when told to.

use vstd::prelude::*;

verus! {

/// The interface identifier of the virtual-pointer capability this tool needs.
pub open spec fn required_interface() -> Seq<char> {
    "zwlr_virtual_pointer_manager_v1"@
}

/// The required interface identifier as an allocated string, for comparison
/// against advertised interface names.
pub fn required_interface_name() -> (s: String)
    ensures
        s@ == required_interface(),
{
    "zwlr_virtual_pointer_manager_v1".to_owned()
}

/// One global-capability advertisement, as observed during discovery.
pub struct Advertisement {
    /// The server-assigned numeric name of the global.
    pub name: u32,
    /// The advertised interface identifier.
    pub interface: Seq<char>,
    /// The advertised interface version.
    pub version: u32,
}

/// Whether an advertisement offers the required interface.
pub open spec fn is_match(ad: Advertisement) -> bool {
    ad.interface == required_interface()
}

/// The name and version a bind request was (or is to be) issued with.
#[derive(Clone, Copy, Debug, PartialEq, Eq, Structural)]
pub struct Binding {
    pub name: u32,
    pub version: u32,
}

/// The binding that a sequence of advertisements determines: the first
/// matching advertisement's name and version, or nothing when no
/// advertisement matches.
pub open spec fn select_first(ads: Seq<Advertisement>) -> Option<Binding>
    decreases ads.len(),
{
    if ads.len() == 0 {
        None
    } else if is_match(ads[0]) {
        Some(Binding { name: ads[0].name, version: ads[0].version })
    } else {
        select_first(ads.drop_first())
    }
}

/// Appending one advertisement changes the selection only when nothing was
/// selected yet and the new advertisement matches.
pub proof fn lemma_select_first_push(ads: Seq<Advertisement>, ad: Advertisement)
    ensures
        select_first(ads.push(ad)) == (if select_first(ads) is Some {
            select_first(ads)
        } else if is_match(ad) {
            Some(Binding { name: ad.name, version: ad.version })
        } else {
            None
        }),
    decreases ads.len(),
{
    reveal_with_fuel(select_first, 2);
    if ads.len() == 0 {
        assert(ads.push(ad)[0] == ad);
        assert(ads.push(ad).drop_first() =~= Seq::<Advertisement>::empty());
    } else {
        assert(ads.push(ad)[0] == ads[0]);
        assert(ads.push(ad).drop_first() =~= ads.drop_first().push(ad));
        lemma_select_first_push(ads.drop_first(), ad);
    }
}

/// Law: an advertisement sequence with no matching global selects nothing.
pub proof fn lemma_select_none(ads: Seq<Advertisement>)
    requires
        forall|i: int| 0 <= i < ads.len() ==> !is_match(#[trigger] ads[i]),
    ensures
        select_first(ads) is None,
    decreases ads.len(),
{
    if ads.len() > 0 {
        assert(!is_match(ads[0]));
        assert(forall|i: int|
            0 <= i < ads.drop_first().len() ==> !is_match(#[trigger] ads.drop_first()[i]));
        lemma_select_none(ads.drop_first());
    }
}

/// Law: the first matching advertisement, and only it, determines the
/// binding, with its advertised name and version; any matches after it are
/// ignored. With exactly one match this is that match; with several, the
/// earliest.
pub proof fn lemma_select_first_match(ads: Seq<Advertisement>, k: int)
    requires
        0 <= k < ads.len(),
        is_match(ads[k]),
        forall|i: int| 0 <= i < k ==> !is_match(#[trigger] ads[i]),
    ensures
        select_first(ads) == Some(Binding { name: ads[k].name, version: ads[k].version }),
    decreases k,
{
    if k == 0 {
    } else {
        assert(!is_match(ads[0]));
        assert(ads.drop_first()[k - 1] == ads[k]);
        assert(forall|i: int|
            0 <= i < k - 1 ==> ads.drop_first()[i] == #[trigger] ads[i + 1]);
        lemma_select_first_match(ads.drop_first(), k - 1);
    }
}

/// The discovery state: every advertisement observed so far, and the binding
/// the first matching one determined, if any.
pub struct RegistrySession {
    bound: Option<Binding>,
    seen: Ghost<Seq<Advertisement>>,
}

impl RegistrySession {
    /// Every advertisement this session has observed, in order.
    pub closed spec fn history(&self) -> Seq<Advertisement> {
        self.seen@
    }

    /// The binding the observed advertisements determined so far.
    pub closed spec fn binding(&self) -> Option<Binding> {
        self.bound
    }

    #[verifier::type_invariant]
    spec fn inv(self) -> bool {
        self.bound == select_first(self.seen@)
    }

    /// A fresh session that has observed nothing.
    pub fn new() -> (s: RegistrySession)
        ensures
            s.history() == Seq::<Advertisement>::empty(),
            s.binding() is None,
    {
        RegistrySession { bound: None, seen: Ghost(Seq::empty()) }
    }

    /// Observes one advertisement, in server-determined order.
    ///
    /// Returns true exactly when this advertisement is the first matching
    /// one — the caller must then issue the bind request with the
    /// advertisement's name and version. Later matches and advertisements of
    /// other interfaces change nothing.
    pub fn on_advertisement(&mut self, name: u32, interface: &String, version: u32) -> (bind_now:
        bool)
        ensures
            final(self).history() == old(self).history().push(
                Advertisement { name, interface: interface@, version },
            ),
            bind_now == (old(self).binding() is None && interface@ == required_interface()),
            bind_now ==> final(self).binding() == Some(Binding { name, version }),
            !bind_now ==> final(self).binding() == old(self).binding(),
    {
        proof {
            use_type_invariant(&*self);
        }
        let ghost ad = Advertisement { name, interface: interface@, version };
        proof {
            lemma_select_first_push(self.seen@, ad);
        }
        let required = required_interface_name();
        let bind_now = self.bound.is_none() && *interface == required;
        let new_bound = if bind_now {
            Some(Binding { name, version })
        } else {
            self.bound
        };
        *self = RegistrySession { bound: new_bound, seen: Ghost(self.seen@.push(ad)) };
        bind_now
    }

    /// Reports the outcome of discovery. Called once the initial round-trip
    /// has completed, when every existing global has been advertised; absence
    /// means the required capability is not offered, which the caller turns
    /// into its own typed condition.
    pub fn finalize(&self) -> (r: Option<Binding>)
        ensures
            r == self.binding(),
            r == select_first(self.history()),
    {
        proof {
            use_type_invariant(self);
        }
        self.bound
    }
}

} // verus!
