//! The session: the credentials in use and the vehicles found with them.

use crate::credentials::{text_of, Credentials, CredentialsView};
use crate::text::{joined, lemma_joined_step, trim, trimmed};
use vstd::prelude::*;

verus! {

/// The service's handle for one vehicle.
#[derive(Clone, Copy, Debug, PartialEq, Eq, Structural)]
pub struct VehicleId {
    pub raw: u64,
}

/// One product of the account, as far as the roster reads it.
#[derive(Clone, Debug, PartialEq, Eq)]
pub enum Product {
    /// A vehicle, with the name that its owner gave it.
    Vehicle { id: VehicleId, display_name: Option<String> },
    /// Anything that is no vehicle.
    Other,
}

/// [`Product`] as plain text.
#[verifier::ext_equal]
pub enum ProductView {
    Vehicle { id: VehicleId, display_name: Option<Seq<char>> },
    Other,
}

impl View for Product {
    type V = ProductView;

    open spec fn view(&self) -> ProductView {
        match *self {
            Product::Vehicle { id, display_name } => ProductView::Vehicle {
                id,
                display_name: text_of(display_name),
            },
            Product::Other => ProductView::Other,
        }
    }
}

/// One vehicle of the roster.
#[derive(Clone, Debug, PartialEq, Eq)]
pub struct RosterEntry {
    pub id: VehicleId,
    pub display_name: String,
}

/// [`RosterEntry`] as plain text.
#[verifier::ext_equal]
pub struct RosterEntryView {
    pub id: VehicleId,
    pub display_name: Seq<char>,
}

impl View for RosterEntry {
    type V = RosterEntryView;

    open spec fn view(&self) -> RosterEntryView {
        RosterEntryView { id: self.id, display_name: self.display_name@ }
    }
}

/// The views of `products`, in order.
pub open spec fn product_views(products: Seq<Product>) -> Seq<ProductView> {
    Seq::new(products.len(), |i: int| products[i]@)
}

/// The views of `entries`, in order.
pub open spec fn entry_views(entries: Seq<RosterEntry>) -> Seq<RosterEntryView> {
    Seq::new(entries.len(), |i: int| entries[i]@)
}

/// The roster that `products` give: its vehicles in their order, each under
/// its display name, or under the empty name where it has none. What is no
/// vehicle is left out.
pub open spec fn vehicles_of(products: Seq<ProductView>) -> Seq<RosterEntryView>
    decreases products.len(),
{
    if products.len() == 0 {
        Seq::<RosterEntryView>::empty()
    } else {
        let front = vehicles_of(products.drop_last());
        match products.last() {
            ProductView::Vehicle { id, display_name } => front.push(
                RosterEntryView {
                    id,
                    display_name: match display_name {
                        Some(name) => name,
                        None => Seq::<char>::empty(),
                    },
                },
            ),
            ProductView::Other => front,
        }
    }
}

/// The display names of `roster`, in order.
pub open spec fn names_of(roster: Seq<RosterEntryView>) -> Seq<Seq<char>> {
    Seq::new(roster.len(), |i: int| roster[i].display_name)
}

/// The text that shows `roster`: its display names, one per line, without
/// white space at either end of the whole.
pub open spec fn roster_text(roster: Seq<RosterEntryView>) -> Seq<char> {
    trimmed(joined(names_of(roster)))
}

/// The vehicle at `idx` of `roster`, where `idx` is an index into it.
pub open spec fn vehicle_at(roster: Seq<RosterEntryView>, idx: i64) -> Option<VehicleId> {
    if 0 <= idx < roster.len() {
        Some(roster[idx as int].id)
    } else {
        None
    }
}

/// The roster of a listing is that of its parts, one after the other: the
/// order of the listing is kept. A vehicle alone gives its entry, anything
/// else alone gives nothing.
pub proof fn law_roster_keeps_the_order_of_the_listing(front: Seq<ProductView>, back: Seq<ProductView>)
    ensures
        vehicles_of(front + back) == vehicles_of(front) + vehicles_of(back),
        vehicles_of(seq![ProductView::Other]) == Seq::<RosterEntryView>::empty(),
        forall|id: VehicleId, name: Seq<char>| #[trigger]
            vehicles_of(seq![ProductView::Vehicle { id, display_name: Some(name) }]) == seq![
                RosterEntryView { id, display_name: name },
            ],
        forall|id: VehicleId| #[trigger]
            vehicles_of(seq![ProductView::Vehicle { id, display_name: None }]) == seq![
                RosterEntryView { id, display_name: Seq::<char>::empty() },
            ],
    decreases back.len(),
{
    reveal_with_fuel(vehicles_of, 2);
    assert forall|id: VehicleId, name: Seq<char>| #[trigger]
        vehicles_of(seq![ProductView::Vehicle { id, display_name: Some(name) }]) == seq![
            RosterEntryView { id, display_name: name },
        ] by {
        let one = seq![ProductView::Vehicle { id, display_name: Some(name) }];
        assert(one.drop_last().len() == 0);
        assert(vehicles_of(one) =~= seq![RosterEntryView { id, display_name: name }]);
    }
    assert forall|id: VehicleId| #[trigger]
        vehicles_of(seq![ProductView::Vehicle { id, display_name: None }]) == seq![
            RosterEntryView { id, display_name: Seq::<char>::empty() },
        ] by {
        let one = seq![ProductView::Vehicle { id, display_name: None }];
        assert(one.drop_last().len() == 0);
        assert(vehicles_of(one) =~= seq![
            RosterEntryView { id, display_name: Seq::<char>::empty() },
        ]);
    }
    assert(vehicles_of(seq![ProductView::Other]) =~= Seq::<RosterEntryView>::empty()) by {
        assert(seq![ProductView::Other].drop_last().len() == 0);
    }
    if back.len() == 0 {
        assert(front + back =~= front);
        assert(vehicles_of(front) + vehicles_of(back) =~= vehicles_of(front));
    } else {
        let whole = front + back;
        assert(whole.drop_last() =~= front + back.drop_last());
        assert(whole.last() == back.last());
        law_roster_keeps_the_order_of_the_listing(front, back.drop_last());
        assert(vehicles_of(whole) =~= vehicles_of(front) + vehicles_of(back));
    }
}

/// What the session holds.
#[verifier::ext_equal]
pub struct SessionView {
    pub credentials: Option<CredentialsView>,
    pub roster: Seq<RosterEntryView>,
}

/// The credentials in use, if any, and the roster found with them. A session
/// changes only when a login ends and when a roster arrives.
#[derive(Debug)]
pub struct Session {
    credentials: Option<Credentials>,
    roster: Vec<RosterEntry>,
}

impl View for Session {
    type V = SessionView;

    closed spec fn view(&self) -> SessionView {
        SessionView {
            credentials: match self.credentials {
                Some(c) => Some(c@),
                None => None,
            },
            roster: entry_views(self.roster@),
        }
    }
}

impl Session {
    /// The session after a login has ended: with the credentials it gave, or
    /// without any where it failed, and with an empty roster.
    pub fn new(credentials: Option<Credentials>) -> (session: Session)
        ensures
            session@.credentials == match credentials {
                Some(c) => Some(c@),
                None => None,
            },
            session@.roster == Seq::<RosterEntryView>::empty(),
    {
        let session = Session { credentials, roster: Vec::new() };
        assert(session@.roster =~= Seq::<RosterEntryView>::empty());
        session
    }

    /// Tells whether the session holds credentials.
    pub fn is_authenticated(&self) -> (b: bool)
        ensures
            b == self@.credentials is Some,
    {
        self.credentials.is_some()
    }

    /// The credentials in use.
    pub fn credentials(&self) -> (held: Option<&Credentials>)
        ensures
            match held {
                Some(c) => self@.credentials == Some(c@),
                None => self@.credentials is None,
            },
    {
        self.credentials.as_ref()
    }

    /// How many vehicles the roster holds.
    pub fn roster_len(&self) -> (n: usize)
        ensures
            n == self@.roster.len(),
    {
        self.roster.len()
    }

    /// The roster's entry at `i`.
    pub fn entry(&self, i: usize) -> (entry: &RosterEntry)
        requires
            i < self@.roster.len(),
        ensures
            entry@ == self@.roster[i as int],
    {
        &self.roster[i]
    }

    /// The vehicle at `idx` of the roster; none where `idx` is no index into
    /// it.
    pub fn vehicle(&self, idx: i64) -> (found: Option<VehicleId>)
        ensures
            found == vehicle_at(self@.roster, idx),
    {
        if idx < 0 {
            return None;
        }
        let i: u64 = idx as u64;
        if i < self.roster.len() as u64 {
            Some(self.roster[i as usize].id)
        } else {
            None
        }
    }

    /// Replaces the roster by the vehicles among `products` and returns the
    /// text that shows it. The credentials stay.
    pub fn install_roster(&mut self, products: Vec<Product>) -> (text: String)
        ensures
            final(self)@.credentials == old(self)@.credentials,
            final(self)@.roster == vehicles_of(product_views(products@)),
            text@ == roster_text(final(self)@.roster),
    {
        let ghost all = product_views(products@);
        let mut roster: Vec<RosterEntry> = Vec::new();
        let mut names = String::new();
        let mut products = products;
        let n: usize = products.len();
        let mut i: usize = 0;
        assert(all.take(0) =~= Seq::<ProductView>::empty());
        assert(names_of(entry_views(roster@)) =~= Seq::<Seq<char>>::empty());
        while i < n
            invariant
                i <= n,
                n == products@.len(),
                n == all.len(),
                forall|j: int| i <= j < n ==> (#[trigger] products@[j])@ == all[j],
                entry_views(roster@) == vehicles_of(all.take(i as int)),
                names@ == joined(names_of(entry_views(roster@))),
            decreases n - i,
        {
            let ghost before = entry_views(roster@);
            proof {
                assert(all.take(i + 1).drop_last() =~= all.take(i as int));
                assert(all.take(i + 1).last() == all[i as int]);
            }
            let mut product = Product::Other;
            products.set_and_swap(i, &mut product);
            match product {
                Product::Vehicle { id, display_name } => {
                    let display_name = match display_name {
                        Some(name) => name,
                        None => String::new(),
                    };
                    if roster.len() > 0 {
                        names.append("\n");
                    }
                    names.append(display_name.as_str());
                    roster.push(RosterEntry { id, display_name });
                    proof {
                        let after = entry_views(roster@);
                        assert(after =~= before.push(
                            RosterEntryView { id, display_name: display_name@ },
                        ));
                        let shown = names_of(after);
                        assert(shown.take(before.len() as int) =~= names_of(before));
                        assert(shown.take(before.len() as int + 1) =~= shown);
                        lemma_joined_step(shown, before.len() as int);
                    }
                },
                Product::Other => {},
            }
            i = i + 1;
        }
        assert(all.take(n as int) =~= all);
        self.roster = roster;
        trim(names.as_str())
    }
}

} // verus!
